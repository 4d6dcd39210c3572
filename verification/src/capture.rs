//! Screen captures as the pickers hold them, and how a colour is read out of each:
//! the X11 root image decoded through the visual's channel masks, the Windows BGRA
//! desktop bitmap, and the macOS capture of the area around the cursor.

use vstd::prelude::*;
use crate::color::Rgb;

verus! {

/// Unsigned value of bytes stored least significant first.
pub open spec fn le_value(bytes: Seq<u8>) -> nat
    decreases bytes.len(),
{
    if bytes.len() == 0 {
        0
    } else {
        bytes[0] as nat + 256 * le_value(bytes.drop_first())
    }
}

/// Unsigned value of bytes stored most significant first.
pub open spec fn be_value(bytes: Seq<u8>) -> nat
    decreases bytes.len(),
{
    if bytes.len() == 0 {
        0
    } else {
        be_value(bytes.drop_last()) * 256 + bytes.last() as nat
    }
}

/// `256` to the power `n`.
pub open spec fn pow256(n: nat) -> nat
    decreases n,
{
    if n == 0 {
        1
    } else {
        256 * pow256((n - 1) as nat)
    }
}

proof fn lemma_le_value_bound(bytes: Seq<u8>)
    ensures
        le_value(bytes) < pow256(bytes.len()),
    decreases bytes.len(),
{
    if bytes.len() > 0 {
        lemma_le_value_bound(bytes.drop_first());
        let rest = le_value(bytes.drop_first());
        let p = pow256((bytes.len() - 1) as nat);
        assert(bytes[0] as nat + 256 * rest < 256 * p) by (nonlinear_arith)
            requires
                rest < p,
                bytes[0] < 256,
        ;
    }
}

proof fn lemma_be_value_bound(bytes: Seq<u8>)
    ensures
        be_value(bytes) < pow256(bytes.len()),
    decreases bytes.len(),
{
    if bytes.len() > 0 {
        lemma_be_value_bound(bytes.drop_last());
        let rest = be_value(bytes.drop_last());
        let p = pow256((bytes.len() - 1) as nat);
        assert(rest * 256 + bytes.last() < 256 * p) by (nonlinear_arith)
            requires
                rest < p,
                bytes.last() < 256,
        ;
    }
}

proof fn lemma_pow256_small(n: nat)
    requires
        n <= 4,
    ensures
        pow256(n) <= 4294967296,
{
    reveal_with_fuel(pow256, 5);
}

/// Largest channel field width, once shifted down, for which scaling to 0..255 fits 32 bits.
pub const MAX_CHANNEL_MAX: u32 = 0x0101_0101;

/// A channel value read through a visual mask: the field at `shift`, `max` wide once
/// shifted down, scaled to 0..255 (rounding down).
pub open spec fn spec_channel(px: u32, shift: u32, max: u32) -> u8 {
    ((((px >> shift) & max) as int * 255) / (if max == 0 { 1 } else { max as int })) as u8
}

/// The X11 root window captured once: raw pixels in the server's format, with what is
/// needed to decode them (byte order, bytes per pixel, channel masks).
pub struct Screen {
    data: Vec<u8>,
    width: i32,
    height: i32,
    stride: usize,
    bpp: usize,
    lsb_first: bool,
    r_shift: u32,
    g_shift: u32,
    b_shift: u32,
    r_max: u32,
    g_max: u32,
    b_max: u32,
}

impl Screen {
    #[verifier::type_invariant]
    spec fn inv(self) -> bool {
        &&& self.width > 0
        &&& self.height > 0
        &&& self.bpp <= 4
        &&& self.width * self.bpp <= self.stride
        &&& self.stride * self.height <= self.data@.len()
        &&& self.r_shift < 32 && self.g_shift < 32 && self.b_shift < 32
        &&& 1 <= self.r_max <= MAX_CHANNEL_MAX
        &&& 1 <= self.g_max <= MAX_CHANNEL_MAX
        &&& 1 <= self.b_max <= MAX_CHANNEL_MAX
    }

    /// Raw bytes of the capture.
    pub closed spec fn spec_data(&self) -> Seq<u8> {
        self.data@
    }

    /// Width in pixels.
    pub closed spec fn spec_width(&self) -> int {
        self.width as int
    }

    /// Height in pixels.
    pub closed spec fn spec_height(&self) -> int {
        self.height as int
    }

    /// Bytes per row.
    pub closed spec fn spec_stride(&self) -> int {
        self.stride as int
    }

    /// Bytes per pixel.
    pub closed spec fn spec_bpp(&self) -> int {
        self.bpp as int
    }

    /// Byte order: least significant byte first.
    pub closed spec fn spec_lsb_first(&self) -> bool {
        self.lsb_first
    }

    /// Shifts and shifted-down masks of the red, green and blue fields.
    pub closed spec fn spec_masks(&self) -> (u32, u32, u32, u32, u32, u32) {
        (self.r_shift, self.g_shift, self.b_shift, self.r_max, self.g_max, self.b_max)
    }

    /// The dimensions and layout are consistent (the invariant every screen keeps).
    pub open spec fn layout_ok(&self) -> bool {
        &&& 0 < self.spec_width() <= i32::MAX
        &&& 0 < self.spec_height() <= i32::MAX
        &&& 0 <= self.spec_bpp() <= 4
        &&& self.spec_width() * self.spec_bpp() <= self.spec_stride()
        &&& self.spec_stride() * self.spec_height() <= self.spec_data().len()
    }

    /// Raw pixel value at `(x, y)`, inside the screen.
    pub open spec fn spec_raw_pixel(&self, x: int, y: int) -> nat {
        let off = y * self.spec_stride() + x * self.spec_bpp();
        let bytes = self.spec_data().subrange(off, off + self.spec_bpp());
        if self.spec_lsb_first() {
            le_value(bytes)
        } else {
            be_value(bytes)
        }
    }

    /// Colour at `(x, y)` after clamping the position into the screen.
    pub open spec fn spec_pixel(&self, x: int, y: int) -> Rgb {
        let cx = clamp(x, 0, self.spec_width() - 1);
        let cy = clamp(y, 0, self.spec_height() - 1);
        let px = self.spec_raw_pixel(cx, cy) as u32;
        let m = self.spec_masks();
        (spec_channel(px, m.0, m.3), spec_channel(px, m.1, m.4), spec_channel(px, m.2, m.5))
    }

    /// The layout a capture with these parameters accepts: positive dimensions, at most 4
    /// bytes per pixel, a row of pixels fits in `len / height` bytes, and three non-empty
    /// channel masks whose fields, shifted down, scale to 0..255 without overflow.
    ///
    /// Zero bytes per pixel (a depth under 8 bits per pixel) is accepted: every raw pixel
    /// then reads 0, so the screen reads black. More than 4 is refused: the X11 protocol
    /// caps a pixmap format at 32 bits per pixel, and a wider pixel does not fit the 32-bit
    /// raw value (read least significant byte first, its fifth byte would be shifted by 32
    /// bits, which overflows).
    pub open spec fn accepts(
        len: int,
        width: i32,
        height: i32,
        bpp: usize,
        r_mask: u32,
        g_mask: u32,
        b_mask: u32,
    ) -> bool {
        &&& width > 0
        &&& height > 0
        &&& bpp <= 4
        &&& width * bpp <= len / (height as int)
        &&& r_mask != 0 && g_mask != 0 && b_mask != 0
        &&& (r_mask >> r_mask.trailing_zeros()) <= MAX_CHANNEL_MAX
        &&& (g_mask >> g_mask.trailing_zeros()) <= MAX_CHANNEL_MAX
        &&& (b_mask >> b_mask.trailing_zeros()) <= MAX_CHANNEL_MAX
    }

    /// Builds a screen from the raw image of the root window (`data`, `width` × `height`
    /// pixels of `bpp` bytes, rows of `data.len() / height` bytes) and the root visual's
    /// channel masks. `None` when the layout cannot be decoded (see [`Screen::accepts`]).
    pub fn new(
        data: Vec<u8>,
        width: i32,
        height: i32,
        bpp: usize,
        lsb_first: bool,
        r_mask: u32,
        g_mask: u32,
        b_mask: u32,
    ) -> (r: Option<Screen>)
        ensures
            r is Some <==> Self::accepts(data@.len() as int, width, height, bpp, r_mask, g_mask, b_mask),
            r matches Some(s) ==> {
                &&& s.spec_data() == data@
                &&& s.spec_width() == width
                &&& s.spec_height() == height
                &&& s.spec_stride() == data@.len() as int / (height as int)
                &&& s.spec_bpp() == bpp
                &&& s.spec_lsb_first() == lsb_first
                &&& s.spec_masks() == (
                    r_mask.trailing_zeros(),
                    g_mask.trailing_zeros(),
                    b_mask.trailing_zeros(),
                    r_mask >> r_mask.trailing_zeros(),
                    g_mask >> g_mask.trailing_zeros(),
                    b_mask >> b_mask.trailing_zeros(),
                )
                &&& s.layout_ok()
            },
    {
        if width <= 0 || height <= 0 || bpp > 4 || r_mask == 0 || g_mask == 0
            || b_mask == 0 {
            return None;
        }
        let stride = data.len() / (height as usize);
        if bpp > 0 && (width as usize) > stride / bpp {
            proof {
                assert(width * bpp > stride) by (nonlinear_arith)
                    requires
                        width > stride / bpp,
                        bpp >= 1,
                ;
            }
            return None;
        }
        proof {
            if bpp > 0 {
                assert(width * bpp <= stride) by (nonlinear_arith)
                    requires
                        width <= stride / bpp,
                        bpp >= 1,
                ;
            }
        }
        let r_shift = r_mask.trailing_zeros();
        let g_shift = g_mask.trailing_zeros();
        let b_shift = b_mask.trailing_zeros();
        proof {
            vstd::std_specs::bits::axiom_u32_trailing_zeros(r_mask);
            vstd::std_specs::bits::axiom_u32_trailing_zeros(g_mask);
            vstd::std_specs::bits::axiom_u32_trailing_zeros(b_mask);
        }
        let r_max = r_mask >> r_shift;
        let g_max = g_mask >> g_shift;
        let b_max = b_mask >> b_shift;
        if r_max > MAX_CHANNEL_MAX || g_max > MAX_CHANNEL_MAX || b_max > MAX_CHANNEL_MAX {
            return None;
        }
        proof {
            assert((r_mask >> r_shift) & 1u32 == 1u32 ==> (r_mask >> r_shift) >= 1) by (bit_vector);
            assert((g_mask >> g_shift) & 1u32 == 1u32 ==> (g_mask >> g_shift) >= 1) by (bit_vector);
            assert((b_mask >> b_shift) & 1u32 == 1u32 ==> (b_mask >> b_shift) >= 1) by (bit_vector);
            assert(stride * height <= data@.len()) by (nonlinear_arith)
                requires
                    stride == (data@.len() as int) / (height as int),
                    height > 0,
            ;
        }
        Some(
            Screen {
                data,
                width,
                height,
                stride,
                bpp,
                lsb_first,
                r_shift,
                g_shift,
                b_shift,
                r_max,
                g_max,
                b_max,
            },
        )
    }

    /// Raw bytes of the capture, in the server's format.
    pub fn data(&self) -> (d: &Vec<u8>)
        ensures
            d@ == self.spec_data(),
            self.layout_ok(),
    {
        proof { use_type_invariant(self); }
        &self.data
    }

    /// Width in pixels.
    pub fn width(&self) -> (w: i32)
        ensures
            w == self.spec_width(),
            w > 0,
    {
        proof { use_type_invariant(self); }
        self.width
    }

    /// Height in pixels.
    pub fn height(&self) -> (h: i32)
        ensures
            h == self.spec_height(),
            h > 0,
    {
        proof { use_type_invariant(self); }
        self.height
    }

    /// Bytes per row.
    pub fn stride(&self) -> (s: usize)
        ensures
            s == self.spec_stride(),
    {
        self.stride
    }

    /// Reads the raw value of the pixel at `(x, y)`, honouring the byte order.
    pub fn raw_pixel(&self, x: i32, y: i32) -> (px: u32)
        requires
            0 <= x < self.spec_width(),
            0 <= y < self.spec_height(),
        ensures
            px == self.spec_raw_pixel(x as int, y as int),
    {
        proof {
            use_type_invariant(self);
        }
        let ghost w = self.width as int;
        let ghost h = self.height as int;
        proof {
            assert((y as int) * self.stride <= (h - 1) * self.stride) by (nonlinear_arith)
                requires
                    0 <= y < h,
            ;
            assert((x as int) * self.bpp + self.bpp <= w * self.bpp) by (nonlinear_arith)
                requires
                    0 <= x < w,
            ;
            assert((h - 1) * self.stride + self.stride == h * self.stride) by (nonlinear_arith);
            assert(self.stride * h == h * self.stride) by (nonlinear_arith);
        }
        let len = self.data.len();
        assert((y as int) * self.stride + (x as int) * self.bpp + self.bpp <= len);
        let off = (y as usize) * self.stride + (x as usize) * self.bpp;
        let bpp = self.bpp;
        let ghost bytes = self.data@.subrange(off as int, off + bpp);
        let mut px: u32 = 0;
        if self.lsb_first {
            let mut i: usize = bpp;
            while i > 0
                invariant
                    bpp == self.bpp,
                    bpp <= 4,
                    off + bpp <= len,
                    len == self.data@.len(),
                    bytes == self.data@.subrange(off as int, off + bpp),
                    i <= bpp,
                    px == le_value(bytes.subrange(i as int, bpp as int)),
                    px < pow256((bpp - i) as nat),
                decreases i,
            {
                let b = self.data[off + i - 1];
                proof {
                    let tail = bytes.subrange(i as int, bpp as int);
                    let next = bytes.subrange(i - 1, bpp as int);
                    assert(next.drop_first() =~= tail);
                    assert(next[0] == b);
                    lemma_pow256_small((bpp - i + 1) as nat);
                    let p = pow256((bpp - i) as nat);
                    assert(px * 256 + b < 256 * p) by (nonlinear_arith)
                        requires
                            px < p,
                            b < 256,
                    ;
                }
                px = px * 256 + (b as u32);
                i = i - 1;
            }
            assert(bytes.subrange(0, bpp as int) =~= bytes);
        } else {
            let mut i: usize = 0;
            while i < bpp
                invariant
                    bpp == self.bpp,
                    bpp <= 4,
                    off + bpp <= len,
                    len == self.data@.len(),
                    bytes == self.data@.subrange(off as int, off + bpp),
                    i <= bpp,
                    px == be_value(bytes.subrange(0, i as int)),
                    px < pow256(i as nat),
                decreases bpp - i,
            {
                let b = self.data[off + i];
                proof {
                    let head = bytes.subrange(0, i as int);
                    let next = bytes.subrange(0, i + 1);
                    assert(next.drop_last() =~= head);
                    assert(next.last() == b);
                    lemma_pow256_small((i + 1) as nat);
                    let p = pow256(i as nat);
                    assert(px * 256 + b < 256 * p) by (nonlinear_arith)
                        requires
                            px < p,
                            b < 256,
                    ;
                }
                px = px * 256 + (b as u32);
                i = i + 1;
            }
            assert(bytes.subrange(0, bpp as int) =~= bytes);
        }
        px
    }

    /// Colour of the pixel at `(x, y)`, the position first clamped into the screen; each
    /// channel is read through its mask and scaled to 0..255.
    pub fn pixel(&self, x: i32, y: i32) -> (c: Rgb)
        ensures
            c == self.spec_pixel(x as int, y as int),
    {
        proof {
            use_type_invariant(self);
        }
        let cx = if x < 0 { 0 } else if x > self.width - 1 { self.width - 1 } else { x };
        let cy = if y < 0 { 0 } else if y > self.height - 1 { self.height - 1 } else { y };
        let px = self.raw_pixel(cx, cy);
        let r = scale_channel(px, self.r_shift, self.r_max);
        let g = scale_channel(px, self.g_shift, self.g_max);
        let b = scale_channel(px, self.b_shift, self.b_max);
        (r, g, b)
    }

    /// Whether the pixel layout is byte for byte Cairo's `Rgb24`: 4 bytes per pixel, least
    /// significant first, 8-bit channels with red at bit 16, green at 8 and blue at 0.
    pub fn is_cairo_rgb24_compatible(&self) -> (b: bool)
        ensures
            b == (self.spec_bpp() == 4 && self.spec_lsb_first() && self.spec_masks() == (
                16u32,
                8u32,
                0u32,
                255u32,
                255u32,
                255u32,
            )),
    {
        self.bpp == 4 && self.lsb_first && self.r_shift == 16 && self.g_shift == 8
            && self.b_shift == 0 && self.r_max == 0xFF && self.g_max == 0xFF && self.b_max == 0xFF
    }

    /// The `n` × `n` colours around `(cx, cy)`, row by row from the top-left one at
    /// `(cx - n / 2, cy - n / 2)`; positions outside the screen read the nearest edge pixel.
    pub fn zoom_colors(&self, cx: i32, cy: i32, n: i32) -> (v: Vec<Rgb>)
        requires
            0 < n <= 64,
            i32::MIN + 64 <= cx <= i32::MAX - 64,
            i32::MIN + 64 <= cy <= i32::MAX - 64,
        ensures
            v@.len() == n * n,
            forall|j: int, i: int|
                0 <= j < n && 0 <= i < n ==> #[trigger] v@[j * n + i] == self.spec_pixel(
                    cx - n / 2 + i,
                    cy - n / 2 + j,
                ),
    {
        let mut v: Vec<Rgb> = Vec::new();
        let half = n / 2;
        let mut j: i32 = 0;
        while j < n
            invariant
                0 < n <= 64,
                half == n / 2,
                i32::MIN + 64 <= cx <= i32::MAX - 64,
                i32::MIN + 64 <= cy <= i32::MAX - 64,
                0 <= j <= n,
                v@.len() == j * n,
                forall|jj: int, i: int|
                    0 <= jj < j && 0 <= i < n ==> #[trigger] v@[jj * n + i] == self.spec_pixel(
                        cx - n / 2 + i,
                        cy - n / 2 + jj,
                    ),
            decreases n - j,
        {
            let mut i: i32 = 0;
            while i < n
                invariant
                    0 < n <= 64,
                    half == n / 2,
                    i32::MIN + 64 <= cx <= i32::MAX - 64,
                    i32::MIN + 64 <= cy <= i32::MAX - 64,
                    0 <= j < n,
                    0 <= i <= n,
                    v@.len() == j * n + i,
                    forall|jj: int, ii: int|
                        0 <= jj < j && 0 <= ii < n ==> #[trigger] v@[jj * n + ii] == self.spec_pixel(
                            cx - n / 2 + ii,
                            cy - n / 2 + jj,
                        ),
                    forall|ii: int|
                        0 <= ii < i ==> #[trigger] v@[j * n + ii] == self.spec_pixel(
                            cx - n / 2 + ii,
                            cy - n / 2 + j,
                        ),
                decreases n - i,
            {
                let c = self.pixel(cx - half + i, cy - half + j);
                let ghost before = v@;
                v.push(c);
                proof {
                    assert forall|jj: int, ii: int| 0 <= jj < j && 0 <= ii < n implies #[trigger] v@[jj
                        * n + ii] == self.spec_pixel(cx - n / 2 + ii, cy - n / 2 + jj) by {
                        assert(jj * n + ii < (jj + 1) * n) by (nonlinear_arith)
                            requires ii < n;
                        assert((jj + 1) * n <= j * n) by (nonlinear_arith)
                            requires jj + 1 <= j, n > 0;
                        assert(v@[jj * n + ii] == before[jj * n + ii]);
                    }
                    assert forall|ii: int| 0 <= ii < i + 1 implies #[trigger] v@[j * n + ii]
                        == self.spec_pixel(cx - n / 2 + ii, cy - n / 2 + j) by {
                        if ii < i {
                            assert(v@[j * n + ii] == before[j * n + ii]);
                        }
                    }
                }
                i = i + 1;
            }
            proof {
                assert forall|jj: int, ii: int| 0 <= jj < j + 1 && 0 <= ii < n implies #[trigger] v@[jj * n + ii]
                    == self.spec_pixel(cx - n / 2 + ii, cy - n / 2 + jj) by {
                    if jj < j {
                    } else {
                        assert(jj == j);
                    }
                }
                assert(v@.len() == (j + 1) * n) by (nonlinear_arith)
                    requires v@.len() == j * n + n;
            }
            j = j + 1;
        }
        v
    }
}

/// Clamps `v` into `[lo, hi]`.
pub open spec fn clamp(v: int, lo: int, hi: int) -> int {
    if v < lo {
        lo
    } else if v > hi {
        hi
    } else {
        v
    }
}

/// Reads the field at `shift` through `max` and scales it to 0..255.
fn scale_channel(px: u32, shift: u32, max: u32) -> (c: u8)
    requires
        shift < 32,
        1 <= max <= MAX_CHANNEL_MAX,
    ensures
        c == spec_channel(px, shift, max),
{
    let field = (px >> shift) & max;
    proof {
        assert(((px >> shift) & max) <= max) by (bit_vector);
        assert(field as int * 255 <= max as int * 255) by (nonlinear_arith)
            requires field <= max;
        assert((field as int * 255) / (max as int) <= 255) by (nonlinear_arith)
            requires field <= max, max >= 1;
    }
    let v = field * 255 / max;
    v as u8
}

} // verus!

verus! {

/// The Windows virtual-desktop capture: 32-bit BGRA rows, top-down, and the desktop's
/// origin in screen coordinates.
pub struct BgraCapture {
    data: Vec<u8>,
    width: i32,
    height: i32,
    left: i32,
    top: i32,
}

/// Colour of a BGRA pixel stored at `idx`, if its three colour bytes are in `data`.
pub open spec fn bgra_at(data: Seq<u8>, idx: int) -> Option<Rgb> {
    if 0 <= idx && idx + 2 < data.len() {
        Some((data[idx + 2], data[idx + 1], data[idx]))
    } else {
        None
    }
}

impl BgraCapture {
    #[verifier::type_invariant]
    spec fn inv(self) -> bool {
        &&& self.width >= 0
        &&& self.height >= 0
        &&& self.width * self.height * 4 <= i32::MAX
    }

    /// Captured bytes.
    pub closed spec fn spec_data(&self) -> Seq<u8> {
        self.data@
    }

    /// Width, height, left and top of the virtual desktop.
    pub closed spec fn spec_geometry(&self) -> (int, int, int, int) {
        (self.width as int, self.height as int, self.left as int, self.top as int)
    }

    /// Byte offset of the pixel at screen position `(x, y)`, if it lies on the desktop.
    pub open spec fn spec_offset(&self, x: int, y: int) -> Option<int> {
        let (w, h, left, top) = self.spec_geometry();
        let bx = x - left;
        let by = y - top;
        if 0 <= bx < w && 0 <= by < h {
            Some((by * w + bx) * 4)
        } else {
            None
        }
    }

    /// Colour at screen position `(x, y)`: black off the desktop or past the end of the
    /// captured bytes.
    pub open spec fn spec_pixel_color(&self, x: int, y: int) -> Rgb {
        match self.spec_offset(x, y) {
            Some(idx) => match bgra_at(self.spec_data(), idx) {
                Some(c) => c,
                None => (0, 0, 0),
            },
            None => (0, 0, 0),
        }
    }

    /// Colour the magnifier shows for screen position `(x, y)`: dark grey off the desktop,
    /// mid grey past the end of the captured bytes.
    pub open spec fn spec_zoom_color(&self, x: int, y: int) -> Rgb {
        match self.spec_offset(x, y) {
            Some(idx) => match bgra_at(self.spec_data(), idx) {
                Some(c) => c,
                None => (128, 128, 128),
            },
            None => (64, 64, 64),
        }
    }

    /// Wraps a capture of `width` × `height` pixels whose top-left corner is at
    /// `(left, top)` on screen. `None` when a dimension is negative or the bitmap
    /// (`width × height × 4` bytes) does not fit an `i32`.
    pub fn new(data: Vec<u8>, width: i32, height: i32, left: i32, top: i32) -> (r: Option<
        BgraCapture,
    >)
        ensures
            r is Some <==> (width >= 0 && height >= 0 && width * height * 4 <= i32::MAX),
            r matches Some(c) ==> c.spec_data() == data@ && c.spec_geometry() == (
                width as int,
                height as int,
                left as int,
                top as int,
            ),
    {
        if width < 0 || height < 0 {
            return None;
        }
        proof {
            assert((width as int) * (height as int) <= 2147483647 * 2147483647) by (nonlinear_arith)
                requires 0 <= width <= 2147483647, 0 <= height <= 2147483647;
        }
        let area = (width as u64) * (height as u64);
        if area > 536870911 {
            proof {
                assert(width * height * 4 > i32::MAX);
            }
            return None;
        }
        Some(BgraCapture { data, width, height, left, top })
    }

    /// Captured bytes.
    pub fn data(&self) -> (d: &Vec<u8>)
        ensures
            d@ == self.spec_data(),
    {
        &self.data
    }

    /// Width, height, left and top of the virtual desktop.
    pub fn geometry(&self) -> (g: (i32, i32, i32, i32))
        ensures
            (g.0 as int, g.1 as int, g.2 as int, g.3 as int) == self.spec_geometry(),
            g.0 >= 0,
            g.1 >= 0,
    {
        proof { use_type_invariant(self); }
        (self.width, self.height, self.left, self.top)
    }

    fn offset(&self, x: i32, y: i32) -> (o: Option<usize>)
        ensures
            match self.spec_offset(x as int, y as int) {
                Some(i) => o == Some(i as usize) && i <= i32::MAX,
                None => o is None,
            },
    {
        proof { use_type_invariant(self); }
        let bx = (x as i64) - (self.left as i64);
        let by = (y as i64) - (self.top as i64);
        if bx >= 0 && bx < self.width as i64 && by >= 0 && by < self.height as i64 {
            proof {
                let w = self.width as int;
                let h = self.height as int;
                assert(by * w + bx < w * h) by (nonlinear_arith)
                    requires 0 <= bx < w, 0 <= by < h;
                assert(0 <= by * w) by (nonlinear_arith)
                    requires 0 <= by, 0 <= w;
            }
            let idx = (by * (self.width as i64) + bx) * 4;
            Some(idx as usize)
        } else {
            None
        }
    }

    /// Colour at screen position `(x, y)`; black off the desktop.
    pub fn get_pixel_color(&self, x: i32, y: i32) -> (c: Rgb)
        ensures
            c == self.spec_pixel_color(x as int, y as int),
    {
        match self.offset(x, y) {
            Some(idx) => {
                if idx + 2 < self.data.len() {
                    (self.data[idx + 2], self.data[idx + 1], self.data[idx])
                } else {
                    (0, 0, 0)
                }
            },
            None => (0, 0, 0),
        }
    }

    /// The `n` × `n` colours the magnifier shows around the cursor at `(cx, cy)`, row by
    /// row from `(cx - n / 2, cy - n / 2)`; see [`BgraCapture::spec_zoom_color`].
    pub fn zoom_colors(&self, cx: i32, cy: i32, n: i32) -> (v: Vec<Rgb>)
        requires
            0 < n <= 64,
            i32::MIN + 64 <= cx <= i32::MAX - 64,
            i32::MIN + 64 <= cy <= i32::MAX - 64,
        ensures
            v@.len() == n * n,
            forall|j: int, i: int|
                0 <= j < n && 0 <= i < n ==> #[trigger] v@[j * n + i] == self.spec_zoom_color(
                    cx - n / 2 + i,
                    cy - n / 2 + j,
                ),
    {
        let mut v: Vec<Rgb> = Vec::new();
        let half = n / 2;
        let mut j: i32 = 0;
        while j < n
            invariant
                0 < n <= 64,
                half == n / 2,
                i32::MIN + 64 <= cx <= i32::MAX - 64,
                i32::MIN + 64 <= cy <= i32::MAX - 64,
                0 <= j <= n,
                v@.len() == j * n,
                forall|jj: int, i: int|
                    0 <= jj < j && 0 <= i < n ==> #[trigger] v@[jj * n + i]
                        == self.spec_zoom_color(cx - n / 2 + i, cy - n / 2 + jj),
            decreases n - j,
        {
            let mut i: i32 = 0;
            while i < n
                invariant
                    0 < n <= 64,
                    half == n / 2,
                    i32::MIN + 64 <= cx <= i32::MAX - 64,
                    i32::MIN + 64 <= cy <= i32::MAX - 64,
                    0 <= j < n,
                    0 <= i <= n,
                    v@.len() == j * n + i,
                    forall|jj: int, ii: int|
                        0 <= jj < j && 0 <= ii < n ==> #[trigger] v@[jj * n + ii]
                            == self.spec_zoom_color(cx - n / 2 + ii, cy - n / 2 + jj),
                    forall|ii: int|
                        0 <= ii < i ==> #[trigger] v@[j * n + ii] == self.spec_zoom_color(
                            cx - n / 2 + ii,
                            cy - n / 2 + j,
                        ),
                decreases n - i,
            {
                let x = cx - half + i;
                let y = cy - half + j;
                let c = match self.offset(x, y) {
                    Some(idx) => {
                        if idx + 2 < self.data.len() {
                            (self.data[idx + 2], self.data[idx + 1], self.data[idx])
                        } else {
                            (128u8, 128u8, 128u8)
                        }
                    },
                    None => (64u8, 64u8, 64u8),
                };
                let ghost before = v@;
                v.push(c);
                proof {
                    assert forall|jj: int, ii: int| 0 <= jj < j && 0 <= ii < n implies #[trigger] v@[jj
                        * n + ii] == self.spec_zoom_color(cx - n / 2 + ii, cy - n / 2 + jj) by {
                        assert(jj * n + ii < (jj + 1) * n) by (nonlinear_arith)
                            requires ii < n;
                        assert((jj + 1) * n <= j * n) by (nonlinear_arith)
                            requires jj + 1 <= j, n > 0;
                        assert(v@[jj * n + ii] == before[jj * n + ii]);
                    }
                    assert forall|ii: int| 0 <= ii < i + 1 implies #[trigger] v@[j * n + ii]
                        == self.spec_zoom_color(cx - n / 2 + ii, cy - n / 2 + j) by {
                        if ii < i {
                            assert(v@[j * n + ii] == before[j * n + ii]);
                        }
                    }
                }
                i = i + 1;
            }
            proof {
                assert(v@.len() == (j + 1) * n) by (nonlinear_arith)
                    requires v@.len() == j * n + n;
            }
            j = j + 1;
        }
        v
    }
}

/// A capture of the area around the cursor as macOS hands it back: rows of
/// `bytes_per_row` bytes, pixels of `bits_per_pixel` bits stored blue, green, red, alpha.
#[derive(Debug)]
pub struct ImageBuffer {
    /// Raw bytes.
    pub data: Vec<u8>,
    /// Width in pixels.
    pub width: usize,
    /// Height in pixels.
    pub height: usize,
    /// Bytes per row.
    pub bytes_per_row: usize,
    /// Bits per pixel.
    pub bits_per_pixel: usize,
}

/// Column and row (from the top) of the pixel at the centre of the `target` × `target`
/// crop the magnifier shows, itself centred in a `width` × `height` image. The crop is
/// offset by half the excess (rounded down), and the centre row is counted from the
/// bottom, as the drawing code does, then turned into a row from the top.
pub open spec fn spec_center_position(width: int, height: int, target: int) -> (int, int) {
    let crop_x = if width > target { (width - target) / 2 } else { 0 };
    let crop_y = if height > target { (height - target) / 2 } else { 0 };
    let use_w = if width > target { target } else { width };
    let use_h = if height > target { target } else { height };
    (crop_x + use_w / 2, height - crop_y - (use_h + 1) / 2)
}

impl ImageBuffer {
    /// Colour of the centre pixel of the magnified crop, if its bytes are in the buffer
    /// (the pixel's `bits_per_pixel / 8` bytes, and at least its three colour bytes).
    pub open spec fn spec_center_pixel(&self, target: int) -> Option<Rgb> {
        let (cx, cy) = spec_center_position(self.width as int, self.height as int, target);
        let bpp = self.bits_per_pixel as int / 8;
        let off = cy * self.bytes_per_row + cx * bpp;
        if off + bpp <= self.data@.len() && off + 3 <= self.data@.len() {
            Some((self.data@[off + 2], self.data@[off + 1], self.data@[off]))
        } else {
            None
        }
    }

    /// Colour of the centre pixel of the `target` × `target` crop, before any colour-profile
    /// conversion; see [`ImageBuffer::spec_center_pixel`].
    pub fn center_pixel(&self, target: u32) -> (c: Option<Rgb>)
        ensures
            c == self.spec_center_pixel(target as int),
    {
        let w = self.width as u64;
        let h = self.height as u64;
        let t = target as u64;
        let crop_x = if w > t { (w - t) / 2 } else { 0 };
        let crop_y = if h > t { (h - t) / 2 } else { 0 };
        let use_w = if w > t { t } else { w };
        let use_h = if h > t { t } else { h };
        let cx = crop_x + use_w / 2;
        let cy = h - crop_y - (use_h + 1) / 2;
        let cx = cx as u128;
        let cy = cy as u128;
        let bpp = (self.bits_per_pixel / 8) as u128;
        let bpr = self.bytes_per_row as u128;
        let len = self.data.len() as u128;
        let ghost off = cy * bpr + cx * bpp;
        // Any offset that would not fit 64 bits lies past the end of the data.
        if bpr > 0 && cy > len / bpr {
            proof {
                assert(cy * bpr > len) by (nonlinear_arith)
                    requires cy > len / bpr, bpr > 0;
                assert(cx * bpp >= 0) by (nonlinear_arith)
                    requires cx >= 0, bpp >= 0;
            }
            return None;
        }
        proof {
            assert(cy * bpr <= len) by (nonlinear_arith)
                requires bpr == 0 || cy <= len / bpr, bpr >= 0;
        }
        if bpp > 0 && cx > len / bpp {
            proof {
                assert(cx * bpp > len) by (nonlinear_arith)
                    requires cx > len / bpp, bpp > 0;
                assert(cy * bpr >= 0) by (nonlinear_arith)
                    requires cy >= 0, bpr >= 0;
            }
            return None;
        }
        proof {
            assert(cx * bpp <= len) by (nonlinear_arith)
                requires bpp == 0 || cx <= len / bpp, bpp >= 0;
        }
        let offset = cy * bpr + cx * bpp;
        if offset + bpp <= len && offset + 3 <= len {
            let o = offset as usize;
            Some((self.data[o + 2], self.data[o + 1], self.data[o]))
        } else {
            None
        }
    }
}

} // verus!
