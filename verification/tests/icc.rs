use luma11y::icc::{
    auto_profile, fallback_color_spaces, linux_color_spaces, macos_color_spaces,
    menu_id_from_lowercase, menu_id_to_profile_name, profile_name_to_menu_id, windows_color_spaces, IccSelection,
};

fn names(v: &[luma11y::icc::ICCProfile]) -> Vec<(String, bool)> {
    v.iter().map(|p| (p.name.clone(), p.is_current)).collect()
}

#[test]
fn platform_lists() {
    let w = windows_color_spaces();
    assert_eq!(w.len(), 3);
    assert_eq!(w[0].name, "Auto");
    assert_eq!(w[0].description, "Automatic color space detection");
    assert_eq!(w[1].name, "sRGB");
    assert_eq!(w[1].description, "sRGB IEC61966-2.1 (Standard web)");
    assert_eq!(w[2].name, "Adobe RGB");
    assert_eq!(w[2].description, "Adobe RGB (1998)");
    let l = linux_color_spaces();
    assert_eq!(l.len(), 2);
    assert_eq!(l[1].name, "sRGB");
    let f = fallback_color_spaces();
    assert_eq!(f.len(), 1);
    assert_eq!(f[0].name, auto_profile().name);
    assert!(w.iter().chain(l.iter()).all(|p| !p.is_current));
}

#[test]
fn macos_list_skips_unnamed_spaces() {
    let v = macos_color_spaces(&vec![Some("Display P3".to_string()), None, Some("sRGB IEC61966-2.1".to_string())]);
    assert_eq!(v.len(), 3);
    assert_eq!(v[0].name, "Auto");
    assert_eq!(v[1].name, "Display P3");
    assert_eq!(v[1].description, "Display P3");
    assert_eq!(v[2].name, "sRGB IEC61966-2.1");
}

#[test]
fn selection_reads_back() {
    let mut sel = IccSelection::new();
    assert_eq!(sel.get_selected_icc_profile(), None);
    assert_eq!(sel.get_current_profile_name(), "Auto");
    assert_eq!(
        names(&sel.list_icc_profiles(windows_color_spaces())),
        vec![("Auto".to_string(), true), ("sRGB".to_string(), false), ("Adobe RGB".to_string(), false)]
    );
    sel.select_icc_profile("Adobe RGB".to_string());
    assert_eq!(sel.get_selected_icc_profile(), Some("Adobe RGB".to_string()));
    assert_eq!(sel.get_current_profile_name(), "Adobe RGB");
    assert_eq!(
        names(&sel.list_icc_profiles(windows_color_spaces())),
        vec![("Auto".to_string(), false), ("sRGB".to_string(), false), ("Adobe RGB".to_string(), true)]
    );
}

#[test]
fn selected_color_space() {
    let spaces = vec![Some("Generic RGB".to_string()), None, Some("Display P3".to_string())];
    let mut sel = IccSelection::new();
    assert_eq!(sel.selected_color_space_index(&spaces), None);
    sel.select_icc_profile("Auto".to_string());
    assert_eq!(sel.selected_color_space_index(&spaces), None);
    sel.select_icc_profile("Display P3".to_string());
    assert_eq!(sel.selected_color_space_index(&spaces), Some(2));
    sel.select_icc_profile("Missing".to_string());
    assert_eq!(sel.selected_color_space_index(&spaces), None);
}

#[test]
fn menu_id_from_lowercased_name() {
    assert_eq!(menu_id_from_lowercase("adobe rgb"), "icc_profile_adobe_rgb");
    assert_eq!(menu_id_from_lowercase("  "), "icc_profile___");
    assert_eq!(menu_id_from_lowercase(""), "icc_profile_");
    // Already lowercased: upper case is kept as it comes.
    assert_eq!(menu_id_from_lowercase("Display P3"), "icc_profile_Display_P3");
}

#[test]
fn menu_ids() {
    assert_eq!(profile_name_to_menu_id("Adobe RGB"), "icc_profile_adobe_rgb");
    assert_eq!(profile_name_to_menu_id("Display P3"), "icc_profile_display_p3");
    assert_eq!(profile_name_to_menu_id("sRGB IEC61966-2.1"), "icc_profile_srgb_iec61966-2.1");
    let profiles = windows_color_spaces();
    assert_eq!(menu_id_to_profile_name("icc_profile_adobe_rgb", &profiles), Some("Adobe RGB".to_string()));
    assert_eq!(menu_id_to_profile_name("icc_profile_auto", &profiles), Some("Auto".to_string()));
    assert_eq!(menu_id_to_profile_name("icc_profile_p3", &profiles), None);
    assert_eq!(menu_id_to_profile_name("srgb", &profiles), None);
    for p in &profiles {
        let id = profile_name_to_menu_id(&p.name);
        assert_eq!(menu_id_to_profile_name(&id, &profiles), Some(p.name.clone()));
    }
}
