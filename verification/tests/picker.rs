use luma11y::capture::{BgraCapture, Screen};
use luma11y::picker::{arrow_delta, PickerKey, PickerState, ZoomLimits};

const LIMITS: ZoomLimits = ZoomLimits { min: 4, max: 20, step: 2 };

fn fresh(fg: bool) -> PickerState {
    let mut s = PickerState::new(fg, 10, 11);
    s.color = (10, 20, 30);
    s
}

/// A 4 x 3 screen, 4 bytes per pixel, little-endian 0x00RRGGBB, pixel (x, y) = (x, y, x + y).
fn screen() -> Screen {
    let (w, h) = (4usize, 3usize);
    let mut data = Vec::new();
    for y in 0..h {
        for x in 0..w {
            data.extend_from_slice(&[(x + y) as u8, y as u8, x as u8, 0]);
        }
    }
    Screen::new(data, w as i32, h as i32, 4, true, 0xFF0000, 0x00FF00, 0x0000FF).unwrap()
}

#[test]
fn normal_pick_stores_and_quits() {
    let mut s = fresh(true);
    s.select_color();
    assert!(s.quit);
    assert_eq!(s.fg_color, Some((10, 20, 30)));
    assert_eq!(s.bg_color, None);
    let r = s.result();
    assert_eq!(r.foreground, Some((10, 20, 30)));
    assert_eq!(r.background, None);
    assert!(!r.continue_mode);

    let mut s = fresh(false);
    s.select_color();
    assert!(s.quit);
    assert_eq!(s.bg_color, Some((10, 20, 30)));
    assert_eq!(s.fg_color, None);
}

#[test]
fn continue_mode_picks_both_colours() {
    let mut s = fresh(true);
    s.toggle_continue();
    s.select_color();
    assert!(!s.quit);
    assert!(!s.fg_mode);
    assert_eq!(s.fg_color, Some((10, 20, 30)));
    s.color = (200, 100, 50);
    s.select_color();
    assert!(s.quit);
    assert_eq!(s.fg_color, Some((10, 20, 30)));
    assert_eq!(s.bg_color, Some((200, 100, 50)));
    assert!(s.result().continue_mode);
}

#[test]
fn cancel_drops_everything_abort_keeps_it() {
    let mut s = fresh(true);
    s.toggle_continue();
    s.select_color();
    let mut c = s;
    c.cancel();
    assert!(c.quit);
    assert_eq!(c.result().foreground, None);
    assert_eq!(c.result().background, None);
    let mut a = s;
    a.abort();
    assert!(a.quit);
    assert_eq!(a.result().foreground, Some((10, 20, 30)));
}

#[test]
fn confirm_ignores_continue_mode() {
    let mut s = fresh(false);
    s.toggle_continue();
    s.confirm();
    assert!(s.quit);
    assert_eq!(s.bg_color, Some((10, 20, 30)));
}

#[test]
fn zoom_and_pixels_stay_in_bounds() {
    let mut s = fresh(true);
    for _ in 0..20 {
        s.zoom_in(LIMITS);
    }
    assert_eq!(s.zoom, 20);
    for _ in 0..20 {
        s.zoom_out(LIMITS);
    }
    assert_eq!(s.zoom, 4);
    for _ in 0..20 {
        s.more_pixels();
    }
    assert_eq!(s.captured, 21);
    for _ in 0..20 {
        s.fewer_pixels();
    }
    assert_eq!(s.captured, 9);
    s.wheel(true, true, LIMITS);
    assert_eq!(s.captured, 11);
    s.wheel(false, true, LIMITS);
    assert_eq!(s.zoom, 6);
    s.wheel(false, false, LIMITS);
    assert_eq!(s.zoom, 4);
}

#[test]
fn zoom_steps_cap_at_the_bound() {
    let limits = ZoomLimits { min: 3, max: 10, step: 4 };
    let mut s = PickerState::new(true, 9, 21);
    s.zoom_in(limits);
    assert_eq!(s.zoom, 10);
    s.zoom_out(limits);
    assert_eq!(s.zoom, 6);
    s.zoom_out(limits);
    assert_eq!(s.zoom, 3);
}

#[test]
fn toggle_continue_twice_restores() {
    let mut s = fresh(true);
    s.toggle_continue();
    s.toggle_continue();
    assert!(!s.continue_mode);
}

#[test]
fn reset_restores_defaults() {
    let mut s = fresh(false);
    s.toggle_continue();
    s.select_color();
    s.reset(10, 11);
    assert!(s.fg_mode);
    assert!(!s.continue_mode);
    assert!(!s.quit);
    assert_eq!(s.fg_color, None);
    assert_eq!(s.bg_color, None);
    assert_eq!((s.cursor_x, s.cursor_y), (0, 0));
}

#[test]
fn arrow_deltas() {
    assert_eq!(arrow_delta(PickerKey::Left, false, 50), (-1, 0));
    assert_eq!(arrow_delta(PickerKey::Right, true, 50), (50, 0));
    assert_eq!(arrow_delta(PickerKey::Up, true, 50), (0, -50));
    assert_eq!(arrow_delta(PickerKey::Down, false, 50), (0, 1));
    assert_eq!(arrow_delta(PickerKey::Enter, true, 50), (0, 0));
}

#[test]
fn x11_keys() {
    let scr = screen();
    let mut s = fresh(true);
    s.move_to(&scr, 1, 1);
    assert_eq!(s.color, (1, 1, 2));

    let out = s.handle_key(&scr, PickerKey::Right, false, LIMITS, 50);
    assert!(out.redraw);
    assert_eq!(out.warp_to, Some((2, 1)));
    assert_eq!(s.color, (2, 1, 3));

    // Shift + arrow moves by 50, clamped into the screen.
    let out = s.handle_key(&scr, PickerKey::Right, true, LIMITS, 50);
    assert_eq!(out.warp_to, Some((3, 1)));
    let out = s.handle_key(&scr, PickerKey::Up, true, LIMITS, 50);
    assert_eq!(out.warp_to, Some((3, 0)));
    assert_eq!(s.color, (3, 0, 3));

    let out = s.handle_key(&scr, PickerKey::ZoomIn, true, LIMITS, 50);
    assert!(out.redraw);
    assert_eq!(s.captured, 13);
    let out = s.handle_key(&scr, PickerKey::ZoomOut, false, LIMITS, 50);
    assert!(out.redraw);
    assert_eq!(s.zoom, 8);

    let out = s.handle_key(&scr, PickerKey::Other, false, LIMITS, 50);
    assert!(!out.redraw);
    assert_eq!(out.warp_to, None);

    let out = s.handle_key(&scr, PickerKey::ToggleContinue, false, LIMITS, 50);
    assert!(out.redraw);
    assert!(s.continue_mode);

    let out = s.handle_key(&scr, PickerKey::Enter, false, LIMITS, 50);
    assert!(out.redraw);
    assert_eq!(s.fg_color, Some((3, 0, 3)));
    assert!(!s.fg_mode);

    let out = s.handle_key(&scr, PickerKey::Escape, false, LIMITS, 50);
    assert!(!out.redraw);
    assert!(s.quit);
    assert_eq!(s.fg_color, None);
}

#[test]
fn x11_motion_is_clamped() {
    let scr = screen();
    let mut s = fresh(true);
    s.move_to(&scr, -5, 100);
    assert_eq!((s.cursor_x, s.cursor_y), (0, 2));
    assert_eq!(s.color, (0, 2, 2));
}

#[test]
fn windows_keys() {
    let mut s = fresh(true);
    assert_eq!(s.handle_key_windows(PickerKey::Left, true, LIMITS, 50, (100, 100)), Some((50, 100)));
    assert_eq!(s.handle_key_windows(PickerKey::Down, false, LIMITS, 50, (100, 100)), Some((100, 101)));
    assert_eq!(
        s.handle_key_windows(PickerKey::Up, true, LIMITS, 50, (0, i32::MIN + 10)),
        Some((0, i32::MIN))
    );
    assert_eq!(s.handle_key_windows(PickerKey::ZoomIn, false, LIMITS, 50, (0, 0)), None);
    assert_eq!(s.zoom, 12);
    s.toggle_continue();
    assert_eq!(s.handle_key_windows(PickerKey::Escape, false, LIMITS, 50, (0, 0)), None);
    assert!(s.quit);
    assert!(s.continue_mode);
}

#[test]
fn windows_cursor_update_reads_capture() {
    // 2 x 1 desktop at (-2, 5): BGRA pixels.
    let cap = BgraCapture::new(vec![1, 2, 3, 255, 4, 5, 6, 255], 2, 1, -2, 5).unwrap();
    let mut s = fresh(true);
    s.update_cursor_pos(&cap, -1, 5);
    assert_eq!((s.cursor_x, s.cursor_y), (-1, 5));
    assert_eq!(s.color, (6, 5, 4));
    s.update_cursor_pos(&cap, 0, 5);
    assert_eq!(s.color, (0, 0, 0));
}

#[test]
fn macos_keys() {
    let mut s = fresh(false);
    assert!(!s.handle_key_macos(PickerKey::Other, false, LIMITS));
    assert!(s.handle_key_macos(PickerKey::ZoomOut, true, LIMITS));
    assert_eq!(s.captured, 9);
    assert!(!s.handle_key_macos(PickerKey::Enter, false, LIMITS));
    assert!(s.quit);
    assert_eq!(s.bg_color, Some((10, 20, 30)));
}

#[test]
fn macos_escape_cancels_after_first_pick() {
    let mut s = fresh(true);
    s.continue_mode = true;
    s.select_color();
    assert_eq!(s.fg_color, Some((10, 20, 30)));
    assert!(!s.quit);
    assert!(!s.handle_key_macos(PickerKey::Escape, false, LIMITS));
    assert!(s.quit);
    let r = s.result();
    assert_eq!(r.foreground, None);
    assert_eq!(r.background, None);
    assert!(r.continue_mode);
}

#[test]
fn x11_buttons() {
    let mut s = fresh(true);
    assert!(s.handle_button_x11(4, false, LIMITS));
    assert_eq!(s.zoom, 12);
    assert!(s.handle_button_x11(5, true, LIMITS));
    assert_eq!(s.captured, 9);
    assert!(!s.handle_button_x11(2, false, LIMITS));
    assert_eq!(s.pending_release, None);
    assert!(s.handle_button_x11(1, false, LIMITS));
    assert!(s.quit);
    assert_eq!(s.pending_release, Some(1));

    let mut s = fresh(true);
    assert!(!s.handle_button_x11(3, false, LIMITS));
    assert!(s.quit);
    assert_eq!(s.pending_release, Some(3));
    assert_eq!(s.result().foreground, None);
}

#[test]
fn smooth_scroll_zoom_is_clamped() {
    let limits = ZoomLimits { min: 400, max: 3000, step: 200 };
    let mut s = PickerState::new(true, 1000, 15);
    s.scroll_zoom(30, limits);
    assert_eq!(s.zoom, 1030);
    s.scroll_zoom(-130, limits);
    assert_eq!(s.zoom, 900);
    s.scroll_zoom(10_000, limits);
    assert_eq!(s.zoom, 3000);
    s.scroll_zoom(i64::MIN, limits);
    assert_eq!(s.zoom, 400);
    s.scroll_zoom(i64::MAX, limits);
    assert_eq!(s.zoom, 3000);
    assert_eq!(s.captured, 15);
}
