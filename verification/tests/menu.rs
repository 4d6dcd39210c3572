use luma11y::i18n::{MenuCatalog, TranslationTable};
use luma11y::icc::{windows_color_spaces, IccSelection};
use luma11y::menu::{
    always_on_top_item, appearance_items, icc_items, menu_action, style_items, template_items,
    AppSettings, CopyTemplate, MenuAction,
};

fn catalog() -> MenuCatalog {
    let en = vec![
        ("appearance_auto".to_string(), "Auto".to_string()),
        ("appearance_light".to_string(), "Light".to_string()),
        ("appearance_dark".to_string(), "Dark".to_string()),
        ("style_modern".to_string(), "Modern".to_string()),
        ("style_classic".to_string(), "Classic".to_string()),
        ("always_on_top".to_string(), "Always on Top".to_string()),
    ];
    MenuCatalog {
        en: TranslationTable::new(en),
        fr: TranslationTable::new(vec![("appearance_dark".to_string(), "Sombre".to_string())]),
        sk: TranslationTable::new(vec![]),
    }
}

#[test]
fn check_items() {
    let c = catalog();
    let a = appearance_items(&c, "fr", "dark");
    assert_eq!(a.len(), 3);
    assert_eq!((a[0].id.as_str(), a[0].label.as_str(), a[0].checked), ("appearance_auto", "Auto", false));
    assert_eq!((a[2].id.as_str(), a[2].label.as_str(), a[2].checked), ("appearance_dark", "Sombre", true));
    let s = style_items(&c, "en", "classic");
    assert!(!s[0].checked);
    assert!(s[1].checked);
    assert_eq!(s[1].label, "Classic");
    let t = always_on_top_item(&c, "sk", true);
    assert_eq!((t.id.as_str(), t.label.as_str(), t.checked), ("always_on_top", "Always on Top", true));
}

#[test]
fn template_menu_items() {
    let templates = vec![
        CopyTemplate { name: "CSS".to_string(), shortcut: "CmdOrCtrl+1".to_string() },
        CopyTemplate { name: String::new(), shortcut: String::new() },
    ];
    let items = template_items(&templates);
    assert_eq!(items.len(), 2);
    assert_eq!(items[0].id, "copy_template_0");
    assert_eq!(items[0].label, "CSS");
    assert_eq!(items[0].accelerator, Some("CmdOrCtrl+1".to_string()));
    assert_eq!(items[1].id, "copy_template_1");
    assert_eq!(items[1].label, "Template 2");
    assert_eq!(items[1].accelerator, None);
}

#[test]
fn template_ids_beyond_ten() {
    let templates: Vec<CopyTemplate> =
        (0..12).map(|_| CopyTemplate { name: String::new(), shortcut: String::new() }).collect();
    let items = template_items(&templates);
    assert_eq!(items[11].id, "copy_template_11");
    assert_eq!(items[11].label, "Template 12");
    assert_eq!(items[9].label, "Template 10");
    for (i, item) in items.iter().enumerate() {
        assert!(matches!(menu_action(&item.id, &vec![]), MenuAction::CopyTemplate(k) if k == i));
    }
}

#[test]
fn profile_items() {
    let mut sel = IccSelection::new();
    sel.select_icc_profile("sRGB".to_string());
    let items = icc_items(&sel.list_icc_profiles(windows_color_spaces()));
    assert_eq!(items.len(), 3);
    assert_eq!(items[1].id, "icc_profile_srgb");
    assert_eq!(items[1].label, "sRGB");
    assert!(items[1].checked);
    assert!(!items[0].checked);
}

#[test]
fn menu_clicks() {
    let p = windows_color_spaces();
    assert!(matches!(menu_action("copy_template_3", &p), MenuAction::CopyTemplate(3)));
    assert!(matches!(menu_action("copy_template_+7", &p), MenuAction::CopyTemplate(7)));
    assert!(matches!(menu_action("copy_template_", &p), MenuAction::Ignore));
    assert!(matches!(menu_action("copy_template_x", &p), MenuAction::Ignore));
    assert!(matches!(menu_action("copy_template_99999999999999999999999", &p), MenuAction::Ignore));
    assert!(matches!(menu_action("settings", &p), MenuAction::OpenSettings(t) if t == "general"));
    assert!(matches!(menu_action("about", &p), MenuAction::OpenSettings(t) if t == "about"));
    assert!(matches!(menu_action("appearance_light", &p), MenuAction::SetAppearance(m) if m == "light"));
    assert!(matches!(menu_action("appearance_dark", &p), MenuAction::SetAppearance(m) if m == "dark"));
    assert!(matches!(menu_action("appearance_auto", &p), MenuAction::SetAppearance(m) if m == "auto"));
    assert!(matches!(menu_action("style_classic", &p), MenuAction::SetStyleTheme(m) if m == "classic"));
    assert!(matches!(menu_action("style_modern", &p), MenuAction::SetStyleTheme(m) if m == "modern"));
    assert!(matches!(menu_action("always_on_top", &p), MenuAction::ToggleAlwaysOnTop));
    assert!(matches!(menu_action("icc_profile_adobe_rgb", &p), MenuAction::SelectIccProfile(n) if n == "Adobe RGB"));
    assert!(matches!(menu_action("quit", &p), MenuAction::Ignore));
}

#[test]
fn settings_changes() {
    let mut s = AppSettings::new();
    assert_eq!(s.locale, "en");
    assert_eq!(s.appearance, "auto");
    assert_eq!(s.style_theme, "modern");
    assert!(!s.always_on_top);
    assert_eq!(s.settings_tab, "general");
    assert!(s.templates.is_empty());
    assert!(s.set_locale("fr"));
    assert!(!s.set_locale("fr"));
    assert_eq!(s.locale, "fr");
    assert!(s.set_appearance("dark"));
    assert!(!s.set_appearance("dark"));
    assert!(s.set_style_theme("classic"));
    assert!(!s.set_style_theme("classic"));
    s.apply_menu_action(&MenuAction::ToggleAlwaysOnTop);
    assert!(s.always_on_top);
    s.apply_menu_action(&MenuAction::ToggleAlwaysOnTop);
    assert!(!s.always_on_top);
    s.apply_menu_action(&MenuAction::OpenSettings("about".to_string()));
    assert_eq!(s.settings_tab, "about");
    s.apply_menu_action(&MenuAction::SetAppearance("light".to_string()));
    assert_eq!(s.appearance, "light");
    s.apply_menu_action(&MenuAction::CopyTemplate(1));
    assert_eq!(s.appearance, "light");
    s.set_copy_templates(vec![CopyTemplate { name: "a".to_string(), shortcut: String::new() }]);
    assert_eq!(s.templates.len(), 1);
}
