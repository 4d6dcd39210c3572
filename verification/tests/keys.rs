use luma11y::keys::{
    bytes_per_pixel, find_visual_masks, key_from_keysym, key_from_mac_keycode,
    key_from_virtual_key, keysym_for, signed_high_word, signed_low_word, PixmapFormat, VisualMasks,
};
use luma11y::picker::PickerKey;

#[test]
fn x11_keysyms() {
    assert_eq!(key_from_keysym(0xff1b), PickerKey::Escape);
    assert_eq!(key_from_keysym(0xff0d), PickerKey::Enter);
    assert_eq!(key_from_keysym(0xff8d), PickerKey::Enter);
    assert_eq!(key_from_keysym(0x20), PickerKey::Enter);
    assert_eq!(key_from_keysym(0x63), PickerKey::ToggleContinue);
    assert_eq!(key_from_keysym(0x69), PickerKey::ZoomIn);
    assert_eq!(key_from_keysym(0x6f), PickerKey::ZoomOut);
    assert_eq!(key_from_keysym(0xff51), PickerKey::Left);
    assert_eq!(key_from_keysym(0xff52), PickerKey::Up);
    assert_eq!(key_from_keysym(0xff53), PickerKey::Right);
    assert_eq!(key_from_keysym(0xff54), PickerKey::Down);
    assert_eq!(key_from_keysym(0x43), PickerKey::Other);
}

#[test]
fn windows_virtual_keys() {
    assert_eq!(key_from_virtual_key(0x1b), PickerKey::Escape);
    assert_eq!(key_from_virtual_key(0x0d), PickerKey::Enter);
    assert_eq!(key_from_virtual_key(0x20), PickerKey::Enter);
    assert_eq!(key_from_virtual_key(0x43), PickerKey::ToggleContinue);
    assert_eq!(key_from_virtual_key(0x49), PickerKey::ZoomIn);
    assert_eq!(key_from_virtual_key(0x4f), PickerKey::ZoomOut);
    assert_eq!(key_from_virtual_key(0x25), PickerKey::Left);
    assert_eq!(key_from_virtual_key(0x26), PickerKey::Up);
    assert_eq!(key_from_virtual_key(0x27), PickerKey::Right);
    assert_eq!(key_from_virtual_key(0x28), PickerKey::Down);
    assert_eq!(key_from_virtual_key(0x41), PickerKey::Other);
}

#[test]
fn macos_key_codes() {
    assert_eq!(key_from_mac_keycode(53), PickerKey::Escape);
    assert_eq!(key_from_mac_keycode(36), PickerKey::Enter);
    assert_eq!(key_from_mac_keycode(8), PickerKey::ToggleContinue);
    assert_eq!(key_from_mac_keycode(34), PickerKey::ZoomIn);
    assert_eq!(key_from_mac_keycode(31), PickerKey::ZoomOut);
    assert_eq!(key_from_mac_keycode(123), PickerKey::Left);
    assert_eq!(key_from_mac_keycode(124), PickerKey::Right);
    assert_eq!(key_from_mac_keycode(125), PickerKey::Down);
    assert_eq!(key_from_mac_keycode(126), PickerKey::Up);
    assert_eq!(key_from_mac_keycode(49), PickerKey::Other);
}

#[test]
fn keysym_lookup() {
    // Two symbols per key code, codes from 8.
    let table = vec![0xff1b, 0, 0x63, 0x43, 0x69, 0x49];
    assert_eq!(keysym_for(8, 8, &table, 2), 0xff1b);
    assert_eq!(keysym_for(9, 8, &table, 2), 0x63);
    assert_eq!(keysym_for(10, 8, &table, 2), 0x69);
    assert_eq!(keysym_for(11, 8, &table, 2), 0);
    assert_eq!(keysym_for(7, 8, &table, 2), 0);
}

#[test]
fn pixmap_formats() {
    let formats = vec![
        PixmapFormat { depth: 1, bits_per_pixel: 1 },
        PixmapFormat { depth: 24, bits_per_pixel: 32 },
        PixmapFormat { depth: 24, bits_per_pixel: 24 },
        PixmapFormat { depth: 16, bits_per_pixel: 16 },
    ];
    assert_eq!(bytes_per_pixel(&formats, 24), 4);
    assert_eq!(bytes_per_pixel(&formats, 16), 2);
    assert_eq!(bytes_per_pixel(&formats, 30), 4);
}

#[test]
fn visual_masks() {
    let visuals = vec![
        VisualMasks { visual_id: 33, red_mask: 0xFF0000, green_mask: 0xFF00, blue_mask: 0xFF },
        VisualMasks { visual_id: 34, red_mask: 0xF800, green_mask: 0x7E0, blue_mask: 0x1F },
        VisualMasks { visual_id: 34, red_mask: 1, green_mask: 2, blue_mask: 4 },
    ];
    assert_eq!(find_visual_masks(&visuals, 34), Some((0xF800, 0x7E0, 0x1F)));
    assert_eq!(find_visual_masks(&visuals, 33), Some((0xFF0000, 0xFF00, 0xFF)));
    assert_eq!(find_visual_masks(&visuals, 35), None);
}

#[test]
fn message_words() {
    assert_eq!(signed_low_word(0x0002_0001), 1);
    assert_eq!(signed_high_word(0x0002_0001), 2);
    assert_eq!(signed_low_word(0xFFFF), -1);
    assert_eq!(signed_high_word(0xFF88_0000), -120);
    assert_eq!(signed_high_word(0x0078_0000), 120);
    assert_eq!(signed_low_word((-5i64) as u64), -5);
}
