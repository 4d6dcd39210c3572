use luma11y::capture::{BgraCapture, ImageBuffer, Screen};

#[test]
fn screen_rejects_bad_layouts() {
    assert!(Screen::new(vec![0; 16], 0, 1, 4, true, 0xFF0000, 0xFF00, 0xFF).is_none());
    assert!(Screen::new(vec![0; 16], 2, 2, 5, true, 0xFF0000, 0xFF00, 0xFF).is_none());
    assert!(Screen::new(vec![0; 16], 2, 2, 4, true, 0, 0xFF00, 0xFF).is_none());
    // Rows of 16 / 2 = 8 bytes cannot hold 3 pixels of 4 bytes.
    assert!(Screen::new(vec![0; 16], 3, 2, 4, true, 0xFF0000, 0xFF00, 0xFF).is_none());
    // A 32-bit wide channel cannot be scaled without overflow.
    assert!(Screen::new(vec![0; 16], 2, 2, 4, true, 0xFFFF_FFFF, 0xFF00, 0xFF).is_none());
    assert!(Screen::new(vec![0; 16], 2, 2, 4, true, 0xFF0000, 0xFF00, 0xFF).is_some());
}

#[test]
fn screen_under_one_byte_per_pixel_reads_black() {
    let s = Screen::new(vec![0xFF; 4], 2, 2, 0, true, 0xFF0000, 0xFF00, 0xFF).unwrap();
    assert_eq!(s.raw_pixel(1, 1), 0);
    assert_eq!(s.pixel(0, 0), (0, 0, 0));
    assert_eq!(s.pixel(5, -3), (0, 0, 0));
    let s = Screen::new(Vec::new(), 3, 1, 0, false, 0xFF0000, 0xFF00, 0xFF).unwrap();
    assert_eq!(s.pixel(2, 0), (0, 0, 0));
}

#[test]
fn screen_decodes_byte_orders() {
    let data = vec![0x11, 0x22, 0x33, 0x44];
    let lsb = Screen::new(data.clone(), 1, 1, 4, true, 0xFF0000, 0xFF00, 0xFF).unwrap();
    assert_eq!(lsb.raw_pixel(0, 0), 0x4433_2211);
    assert_eq!(lsb.pixel(0, 0), (0x33, 0x22, 0x11));
    assert!(lsb.is_cairo_rgb24_compatible());
    let msb = Screen::new(data, 1, 1, 4, false, 0xFF0000, 0xFF00, 0xFF).unwrap();
    assert_eq!(msb.raw_pixel(0, 0), 0x1122_3344);
    assert_eq!(msb.pixel(0, 0), (0x22, 0x33, 0x44));
    assert!(!msb.is_cairo_rgb24_compatible());
}

#[test]
fn screen_scales_narrow_channels() {
    // 16-bit 5-6-5 pixels, least significant byte first: white and pure green.
    let data = vec![0xFF, 0xFF, 0xE0, 0x07];
    let s = Screen::new(data, 2, 1, 2, true, 0xF800, 0x07E0, 0x001F).unwrap();
    assert_eq!(s.pixel(0, 0), (255, 255, 255));
    assert_eq!(s.pixel(1, 0), (0, 255, 0));
    // Out-of-screen positions read the nearest edge pixel.
    assert_eq!(s.pixel(9, -3), (0, 255, 0));
    // 3 bytes per pixel, most significant first.
    let s = Screen::new(vec![0x80, 0x40, 0x20], 1, 1, 3, false, 0xFF0000, 0xFF00, 0xFF).unwrap();
    assert_eq!(s.raw_pixel(0, 0), 0x804020);
    assert_eq!(s.pixel(0, 0), (0x80, 0x40, 0x20));
}

#[test]
fn screen_row_padding_is_skipped() {
    // 1 pixel per row, rows padded to 8 bytes.
    let data = vec![1, 2, 3, 0, 9, 9, 9, 9, 4, 5, 6, 0, 9, 9, 9, 9];
    let s = Screen::new(data, 1, 2, 4, true, 0xFF0000, 0xFF00, 0xFF).unwrap();
    assert_eq!(s.stride(), 8);
    assert_eq!(s.pixel(0, 1), (6, 5, 4));
}

#[test]
fn screen_zoom_grid() {
    let mut data = Vec::new();
    for y in 0..3u8 {
        for x in 0..3u8 {
            data.extend_from_slice(&[0, y, x, 0]);
        }
    }
    let s = Screen::new(data, 3, 3, 4, true, 0xFF0000, 0xFF00, 0xFF).unwrap();
    let v = s.zoom_colors(0, 0, 3);
    assert_eq!(v.len(), 9);
    // Top-left is (-1, -1), clamped to (0, 0).
    assert_eq!(v[0], (0, 0, 0));
    assert_eq!(v[4], (0, 0, 0));
    assert_eq!(v[8], (1, 1, 0));
}

#[test]
fn bgra_capture_reads_pixels() {
    assert!(BgraCapture::new(vec![], -1, 1, 0, 0).is_none());
    assert!(BgraCapture::new(vec![], 65536, 65536, 0, 0).is_none());
    let cap = BgraCapture::new(vec![10, 20, 30, 255, 40, 50, 60, 255], 2, 1, 100, 200).unwrap();
    assert_eq!(cap.get_pixel_color(100, 200), (30, 20, 10));
    assert_eq!(cap.get_pixel_color(101, 200), (60, 50, 40));
    assert_eq!(cap.get_pixel_color(102, 200), (0, 0, 0));
    assert_eq!(cap.get_pixel_color(100, 199), (0, 0, 0));
    assert_eq!(cap.geometry(), (2, 1, 100, 200));
}

#[test]
fn bgra_zoom_grid_marks_missing_pixels() {
    // 2 x 2 desktop whose data stops after the first row.
    let cap = BgraCapture::new(vec![1, 2, 3, 255, 4, 5, 6, 255], 2, 2, 0, 0).unwrap();
    let v = cap.zoom_colors(0, 0, 3);
    assert_eq!(v.len(), 9);
    assert_eq!(v[0], (64, 64, 64));
    assert_eq!(v[4], (3, 2, 1));
    assert_eq!(v[5], (6, 5, 4));
    assert_eq!(v[7], (128, 128, 128));
}

#[test]
fn image_center_pixel() {
    // 5 x 5 image, 4 bytes per pixel, the pixel at column 2, row 2 from the top is marked.
    let mut data = vec![0u8; 5 * 5 * 4];
    let off = 2 * 20 + 2 * 4;
    data[off] = 7;
    data[off + 1] = 8;
    data[off + 2] = 9;
    let img = ImageBuffer { data, width: 5, height: 5, bytes_per_row: 20, bits_per_pixel: 32 };
    assert_eq!(img.center_pixel(5), Some((9, 8, 7)));
    assert_eq!(img.center_pixel(3), Some((9, 8, 7)));
    // A 4 x 4 image cropped to 4: centre column 2, row 4 - 0 - 2 = 2 from the top.
    let mut data = vec![0u8; 4 * 4 * 4];
    data[2 * 16 + 2 * 4 + 2] = 1;
    let img = ImageBuffer { data, width: 4, height: 4, bytes_per_row: 16, bits_per_pixel: 32 };
    assert_eq!(img.center_pixel(9), Some((1, 0, 0)));
    let empty = ImageBuffer { data: vec![], width: 4, height: 4, bytes_per_row: 16, bits_per_pixel: 32 };
    assert_eq!(empty.center_pixel(9), None);
}
