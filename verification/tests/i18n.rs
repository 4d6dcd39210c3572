use luma11y::i18n::{menu_t, MenuCatalog, TranslationTable};

fn table(pairs: &[(&str, &str)]) -> TranslationTable {
    TranslationTable::new(pairs.iter().map(|(k, v)| (k.to_string(), v.to_string())).collect())
}

fn catalog() -> MenuCatalog {
    MenuCatalog {
        en: table(&[("quit", "Quit"), ("edit", "Edit"), ("window", "Window")]),
        fr: table(&[("quit", "Quitter"), ("edit", "Édition")]),
        sk: table(&[("quit", "Ukončiť")]),
    }
}

#[test]
fn lookup_per_locale() {
    let c = catalog();
    assert_eq!(menu_t(&c, "en", "quit"), "Quit");
    assert_eq!(menu_t(&c, "fr", "quit"), "Quitter");
    assert_eq!(menu_t(&c, "fr", "edit"), "Édition");
    assert_eq!(menu_t(&c, "sk", "quit"), "Ukončiť");
}

#[test]
fn falls_back_to_english_then_question_mark() {
    let c = catalog();
    assert_eq!(menu_t(&c, "fr", "window"), "Window");
    assert_eq!(menu_t(&c, "sk", "edit"), "Edit");
    assert_eq!(menu_t(&c, "de", "quit"), "Quit");
    assert_eq!(menu_t(&c, "", "edit"), "Edit");
    assert_eq!(menu_t(&c, "fr", "missing"), "?");
    assert_eq!(menu_t(&c, "en", "missing"), "?");
}

#[test]
fn first_entry_wins() {
    let t = table(&[("a", "1"), ("a", "2")]);
    assert_eq!(t.t("a"), Some("1".to_string()));
    assert_eq!(t.t("b"), None);
}
