use luma11y::color::{
    format_hex_color, format_labeled_hex_color, luminance_milli, should_use_dark_text,
    ColorPickerResult,
};

#[test]
fn test_dark_text() {
    // White background -> black text (dark)
    assert!(should_use_dark_text(255, 255, 255));
    // Black background -> white text (not dark)
    assert!(!should_use_dark_text(0, 0, 0));
}

#[test]
fn test_format_hex() {
    assert_eq!(format_hex_color(255, 0, 128), "#FF0080");
    assert_eq!(format_hex_color(0, 0, 0), "#000000");
}

#[test]
fn test_format_labeled() {
    assert_eq!(format_labeled_hex_color("Foreground", 255, 0, 0), "Foreground - #FF0000");
    assert_eq!(format_labeled_hex_color("Background", 0, 255, 0), "Background - #00FF00");
}

#[test]
fn luminance_in_thousandths() {
    assert_eq!(luminance_milli(0, 0, 0), 0);
    assert_eq!(luminance_milli(255, 255, 255), 255000);
    assert_eq!(luminance_milli(255, 0, 0), 76245);
    assert_eq!(luminance_milli(0, 255, 0), 149685);
    assert_eq!(luminance_milli(0, 0, 255), 29070);
}

#[test]
fn dark_text_threshold_is_strict() {
    // g = 200, b = 93: 117400 + 10602 = 128002, just above half scale.
    assert!(should_use_dark_text(0, 200, 93));
    // r = 128, g = 128, b = 128: 128000, exactly half scale, gives white text.
    assert!(!should_use_dark_text(128, 128, 128));
    assert!(should_use_dark_text(129, 128, 128));
}

#[test]
fn dark_text_agrees_with_floating_point_rule() {
    for r in (0..=255u16).step_by(5) {
        for g in (0..=255u16).step_by(3) {
            for b in 0..=255u16 {
                let y = 0.299 * (r as f64) + 0.587 * (g as f64) + 0.114 * (b as f64);
                assert_eq!(should_use_dark_text(r as u8, g as u8, b as u8), y > 128.0);
            }
        }
    }
}

#[test]
fn hex_formatting_is_two_upper_case_digits_per_channel() {
    assert_eq!(format_hex_color(1, 10, 171), "#010AAB");
    assert_eq!(format_hex_color(255, 255, 255), "#FFFFFF");
    assert_eq!(format_labeled_hex_color("", 15, 16, 17), " - #0F1011");
}

#[test]
fn distinct_colours_format_differently() {
    let mut seen = std::collections::HashSet::new();
    for r in (0..=255u8).step_by(17) {
        for g in (0..=255u8).step_by(17) {
            for b in (0..=255u8).step_by(17) {
                let s = format_hex_color(r, g, b);
                assert_eq!(s.len(), 7);
                assert!(seen.insert(s));
            }
        }
    }
}

#[test]
fn default_result_is_empty() {
    let r = ColorPickerResult::default();
    assert_eq!(r.foreground, None);
    assert_eq!(r.background, None);
    assert!(!r.continue_mode);
}
