use luma11y::overlay::{magnifier_rings, magnifier_rings_windows};
use luma11y::picker::PickerState;

fn state(fg_mode: bool, continue_mode: bool, fg: Option<(u8, u8, u8)>, bg: Option<(u8, u8, u8)>) -> PickerState {
    let mut s = PickerState::new(fg_mode, 10, 11);
    s.color = (255, 255, 255);
    s.continue_mode = continue_mode;
    s.fg_color = fg;
    s.bg_color = bg;
    s
}

#[test]
fn rings_single_mode() {
    let v = magnifier_rings(&state(true, false, None, Some((1, 2, 3))));
    assert_eq!(v.len(), 1);
    assert!(v[0].top);
    assert_eq!(v[0].text, "Foreground - #FFFFFF");
    assert!(v[0].dark_text);
    assert!(!v[0].badge);
}

#[test]
fn rings_continue_mode() {
    let v = magnifier_rings(&state(false, true, Some((0, 0, 0)), None));
    assert_eq!(v.len(), 2);
    assert!(v[0].top);
    assert_eq!(v[0].text, "Foreground - #000000");
    assert!(!v[0].dark_text);
    assert!(!v[0].badge);
    assert!(!v[1].top);
    assert_eq!(v[1].text, "Background - #FFFFFF");
    assert!(v[1].badge);
}

#[test]
fn rings_windows() {
    let v = magnifier_rings_windows(&state(true, false, None, None));
    assert_eq!(v.len(), 1);
    assert!(v[0].top);
    let v = magnifier_rings_windows(&state(true, true, None, Some((0, 16, 32))));
    assert_eq!(v.len(), 2);
    assert!(v[0].badge);
    assert_eq!(v[1].text, "Background - #001020");
    assert!(!v[1].badge);
    let v = magnifier_rings_windows(&state(false, false, None, None));
    assert_eq!(v.len(), 1);
    assert!(!v[0].top);
    assert_eq!(v[0].color, (255, 255, 255));
}
