//! The application menu: the settings it reflects, the items it is built from, and what a
//! click on an item asks the application to do.

use vstd::prelude::*;
use crate::i18n::{MenuCatalog, menu_t, spec_menu_t};
use crate::icc::{ICCProfile, menu_id_to_profile_name, profile_name_to_menu_id, spec_menu_id, spec_profile_for_id};
use crate::text::{
    decimal, parse_usize, push_str, spec_parse_usize, starts_with, str_eq, to_decimal, to_string,
};

verus! {

/// A copy template of the frontend: its name and its keyboard shortcut (empty when none).
#[derive(Debug)]
pub struct CopyTemplate {
    /// Display name; empty for an unnamed template.
    pub name: String,
    /// Accelerator, such as `CmdOrCtrl+Shift+1`; empty when none.
    pub shortcut: String,
}

/// A checkable menu item.
#[derive(Debug)]
pub struct CheckItem {
    /// Item id.
    pub id: String,
    /// Label.
    pub label: String,
    /// Whether the item is checked.
    pub checked: bool,
}

/// A plain menu item, with an optional accelerator.
#[derive(Debug)]
pub struct ActionItem {
    /// Item id.
    pub id: String,
    /// Label.
    pub label: String,
    /// Accelerator, if any.
    pub accelerator: Option<String>,
}

/// Id, label and checked flag of a check item.
pub open spec fn check_view(c: CheckItem) -> (Seq<char>, Seq<char>, bool) {
    (c.id@, c.label@, c.checked)
}

/// Id, label and accelerator of an action item.
pub open spec fn action_view(a: ActionItem) -> (Seq<char>, Seq<char>, Option<Seq<char>>) {
    (a.id@, a.label@, match a.accelerator { Some(s) => Some(s@), None => None })
}

fn check_item(catalog: &MenuCatalog, locale: &str, id: &str, key: &str, checked: bool) -> (c: CheckItem)
    ensures
        check_view(c) == (id@, spec_menu_t(catalog, locale@, key@), checked),
{
    CheckItem { id: to_string(id), label: menu_t(catalog, locale, key), checked }
}

/// The three appearance items (`appearance_auto`, `appearance_light`, `appearance_dark`),
/// the one matching `appearance` checked.
pub fn appearance_items(catalog: &MenuCatalog, locale: &str, appearance: &str) -> (v: Vec<CheckItem>)
    ensures
        v@.map_values(|c: CheckItem| check_view(c)) == seq![
            ("appearance_auto"@, spec_menu_t(catalog, locale@, "appearance_auto"@), appearance@ == "auto"@),
            ("appearance_light"@, spec_menu_t(catalog, locale@, "appearance_light"@), appearance@ == "light"@),
            ("appearance_dark"@, spec_menu_t(catalog, locale@, "appearance_dark"@), appearance@ == "dark"@),
        ],
{
    let mut v = Vec::new();
    v.push(check_item(catalog, locale, "appearance_auto", "appearance_auto", str_eq(appearance, "auto")));
    v.push(check_item(catalog, locale, "appearance_light", "appearance_light", str_eq(appearance, "light")));
    v.push(check_item(catalog, locale, "appearance_dark", "appearance_dark", str_eq(appearance, "dark")));
    assert(v@.map_values(|c: CheckItem| check_view(c)) =~= seq![
        ("appearance_auto"@, spec_menu_t(catalog, locale@, "appearance_auto"@), appearance@ == "auto"@),
        ("appearance_light"@, spec_menu_t(catalog, locale@, "appearance_light"@), appearance@ == "light"@),
        ("appearance_dark"@, spec_menu_t(catalog, locale@, "appearance_dark"@), appearance@ == "dark"@),
    ]);
    v
}

/// The two style items (`style_modern`, `style_classic`), the one matching `style` checked.
pub fn style_items(catalog: &MenuCatalog, locale: &str, style: &str) -> (v: Vec<CheckItem>)
    ensures
        v@.map_values(|c: CheckItem| check_view(c)) == seq![
            ("style_modern"@, spec_menu_t(catalog, locale@, "style_modern"@), style@ == "modern"@),
            ("style_classic"@, spec_menu_t(catalog, locale@, "style_classic"@), style@ == "classic"@),
        ],
{
    let mut v = Vec::new();
    v.push(check_item(catalog, locale, "style_modern", "style_modern", str_eq(style, "modern")));
    v.push(check_item(catalog, locale, "style_classic", "style_classic", str_eq(style, "classic")));
    assert(v@.map_values(|c: CheckItem| check_view(c)) =~= seq![
        ("style_modern"@, spec_menu_t(catalog, locale@, "style_modern"@), style@ == "modern"@),
        ("style_classic"@, spec_menu_t(catalog, locale@, "style_classic"@), style@ == "classic"@),
    ]);
    v
}

/// The `always_on_top` item, checked when the windows stay on top.
pub fn always_on_top_item(catalog: &MenuCatalog, locale: &str, on: bool) -> (c: CheckItem)
    ensures
        check_view(c) == ("always_on_top"@, spec_menu_t(catalog, locale@, "always_on_top"@), on),
{
    check_item(catalog, locale, "always_on_top", "always_on_top", on)
}

/// Menu id of the copy template at `index`: `copy_template_` and the index in decimal.
pub open spec fn spec_template_id(index: nat) -> Seq<char> {
    "copy_template_"@ + decimal(index)
}

/// Label of the copy template at `index`: its name, or `Template n` (counting from 1)
/// when it has none.
pub open spec fn spec_template_label(name: Seq<char>, index: nat) -> Seq<char> {
    if name.len() == 0 {
        "Template "@ + decimal(index + 1)
    } else {
        name
    }
}

/// The item of the copy template at `index`: its id, its label, and its shortcut as
/// accelerator when it has one.
pub open spec fn spec_template_item(t: CopyTemplate, index: nat) -> (Seq<char>, Seq<char>, Option<Seq<char>>) {
    (
        spec_template_id(index),
        spec_template_label(t.name@, index),
        if t.shortcut@.len() == 0 { None } else { Some(t.shortcut@) },
    )
}

/// The items of the copy-templates submenu, one per template in order; see
/// [`spec_template_item`].
pub fn template_items(templates: &Vec<CopyTemplate>) -> (v: Vec<ActionItem>)
    requires
        templates@.len() < usize::MAX,
    ensures
        v@.len() == templates@.len(),
        forall|i: int|
            0 <= i < v@.len() ==> action_view(#[trigger] v@[i]) == spec_template_item(
                templates@[i],
                i as nat,
            ),
{
    let mut v: Vec<ActionItem> = Vec::new();
    let mut i: usize = 0;
    proof {
        reveal_strlit("copy_template_");
        reveal_strlit("Template ");
    }
    while i < templates.len()
        invariant
            i <= templates@.len(),
            templates@.len() < usize::MAX,
            v@.len() == i,
            forall|k: int|
                0 <= k < i ==> action_view(#[trigger] v@[k]) == spec_template_item(
                    templates@[k],
                    k as nat,
                ),
        decreases templates.len() - i,
    {
        let tpl = &templates[i];
        let mut id = to_string("copy_template_");
        let digits = to_decimal(i);
        push_str(&mut id, digits.as_str());
        let label = if tpl.name.unicode_len() == 0 {
            let mut l = to_string("Template ");
            let n = to_decimal(i + 1);
            push_str(&mut l, n.as_str());
            l
        } else {
            tpl.name.clone()
        };
        let accelerator = if tpl.shortcut.unicode_len() == 0 {
            None
        } else {
            Some(tpl.shortcut.clone())
        };
        v.push(ActionItem { id, label, accelerator });
        i = i + 1;
    }
    v
}

/// The items of the ICC profile submenu: one per profile, id from its name, labelled with
/// its name, checked when it is the current profile.
pub fn icc_items(profiles: &Vec<ICCProfile>) -> (v: Vec<CheckItem>)
    ensures
        v@.len() == profiles@.len(),
        forall|i: int|
            0 <= i < v@.len() ==> check_view(#[trigger] v@[i]) == (
                spec_menu_id(profiles@[i].name@),
                profiles@[i].name@,
                profiles@[i].is_current,
            ),
{
    let mut v: Vec<CheckItem> = Vec::new();
    let mut i: usize = 0;
    while i < profiles.len()
        invariant
            i <= profiles@.len(),
            v@.len() == i,
            forall|k: int|
                0 <= k < i ==> check_view(#[trigger] v@[k]) == (
                    spec_menu_id(profiles@[k].name@),
                    profiles@[k].name@,
                    profiles@[k].is_current,
                ),
        decreases profiles.len() - i,
    {
        let p = &profiles[i];
        let id = profile_name_to_menu_id(p.name.as_str());
        v.push(CheckItem { id, label: p.name.clone(), checked: p.is_current });
        i = i + 1;
    }
    v
}

/// What a click on a menu item asks the application to do.
#[derive(Debug)]
pub enum MenuAction {
    /// Copy the colour with the template at this index.
    CopyTemplate(usize),
    /// Open the settings window on this tab (`general` or `about`).
    OpenSettings(String),
    /// Switch the appearance to this mode (`auto`, `light` or `dark`).
    SetAppearance(String),
    /// Switch the style theme (`modern` or `classic`).
    SetStyleTheme(String),
    /// Toggle always-on-top.
    ToggleAlwaysOnTop,
    /// Select the ICC profile of this name.
    SelectIccProfile(String),
    /// Nothing to do.
    Ignore,
}

/// The action of a menu item, as plain values: a kind and its argument.
pub enum ActionView {
    /// See [`MenuAction::CopyTemplate`].
    CopyTemplate(nat),
    /// See [`MenuAction::OpenSettings`].
    OpenSettings(Seq<char>),
    /// See [`MenuAction::SetAppearance`].
    SetAppearance(Seq<char>),
    /// See [`MenuAction::SetStyleTheme`].
    SetStyleTheme(Seq<char>),
    /// See [`MenuAction::ToggleAlwaysOnTop`].
    ToggleAlwaysOnTop,
    /// See [`MenuAction::SelectIccProfile`].
    SelectIccProfile(Seq<char>),
    /// See [`MenuAction::Ignore`].
    Ignore,
}

/// The plain view of an action.
pub open spec fn action_kind(a: MenuAction) -> ActionView {
    match a {
        MenuAction::CopyTemplate(i) => ActionView::CopyTemplate(i as nat),
        MenuAction::OpenSettings(t) => ActionView::OpenSettings(t@),
        MenuAction::SetAppearance(m) => ActionView::SetAppearance(m@),
        MenuAction::SetStyleTheme(t) => ActionView::SetStyleTheme(t@),
        MenuAction::ToggleAlwaysOnTop => ActionView::ToggleAlwaysOnTop,
        MenuAction::SelectIccProfile(n) => ActionView::SelectIccProfile(n@),
        MenuAction::Ignore => ActionView::Ignore,
    }
}

/// What a click on the menu item `id` does, given the offered ICC profiles.
///
/// An id starting with `copy_template_` copies with the template whose index follows, if
/// that index parses, and does nothing otherwise. `settings` and `about` open the settings
/// window on the `general` or `about` tab; the appearance and style items switch mode; the
/// always-on-top item toggles it. Any other id is looked up among the profiles' menu ids.
pub open spec fn spec_menu_action(id: Seq<char>, profiles: Seq<ICCProfile>) -> ActionView {
    let prefix = "copy_template_"@;
    if prefix.len() <= id.len() && id.subrange(0, prefix.len() as int) == prefix {
        match spec_parse_usize(id.subrange(prefix.len() as int, id.len() as int)) {
            Some(i) => ActionView::CopyTemplate(i),
            None => ActionView::Ignore,
        }
    } else if id == "settings"@ {
        ActionView::OpenSettings("general"@)
    } else if id == "about"@ {
        ActionView::OpenSettings("about"@)
    } else if id == "appearance_auto"@ {
        ActionView::SetAppearance("auto"@)
    } else if id == "appearance_light"@ {
        ActionView::SetAppearance("light"@)
    } else if id == "appearance_dark"@ {
        ActionView::SetAppearance("dark"@)
    } else if id == "style_modern"@ {
        ActionView::SetStyleTheme("modern"@)
    } else if id == "style_classic"@ {
        ActionView::SetStyleTheme("classic"@)
    } else if id == "always_on_top"@ {
        ActionView::ToggleAlwaysOnTop
    } else {
        match spec_profile_for_id(profiles, id) {
            Some(k) => ActionView::SelectIccProfile(profiles[k].name@),
            None => ActionView::Ignore,
        }
    }
}

fn owned(s: &str) -> (r: String)
    ensures
        r@ == s@,
{
    to_string(s)
}

/// What a click on the menu item `id` asks for; see [`spec_menu_action`].
pub fn menu_action(id: &str, profiles: &Vec<ICCProfile>) -> (a: MenuAction)
    ensures
        action_kind(a) == spec_menu_action(id@, profiles@),
{
    proof {
        reveal_strlit("copy_template_");
    }
    if starts_with(id, "copy_template_") {
        let n = id.unicode_len();
        let rest = id.substring_char(14, n);
        return match parse_usize(rest) {
            Some(i) => MenuAction::CopyTemplate(i),
            None => MenuAction::Ignore,
        };
    }
    if str_eq(id, "settings") {
        MenuAction::OpenSettings(owned("general"))
    } else if str_eq(id, "about") {
        MenuAction::OpenSettings(owned("about"))
    } else if str_eq(id, "appearance_auto") {
        MenuAction::SetAppearance(owned("auto"))
    } else if str_eq(id, "appearance_light") {
        MenuAction::SetAppearance(owned("light"))
    } else if str_eq(id, "appearance_dark") {
        MenuAction::SetAppearance(owned("dark"))
    } else if str_eq(id, "style_modern") {
        MenuAction::SetStyleTheme(owned("modern"))
    } else if str_eq(id, "style_classic") {
        MenuAction::SetStyleTheme(owned("classic"))
    } else if str_eq(id, "always_on_top") {
        MenuAction::ToggleAlwaysOnTop
    } else {
        match menu_id_to_profile_name(id, profiles) {
            Some(name) => MenuAction::SelectIccProfile(name),
            None => MenuAction::Ignore,
        }
    }
}

/// A copy-template item leads back to its template: clicking the item built for the
/// template at `index` asks to copy with that very template.
pub proof fn lemma_template_click_round_trip(index: usize, profiles: Seq<ICCProfile>)
    ensures
        spec_menu_action(spec_template_id(index as nat), profiles) == ActionView::CopyTemplate(
            index as nat,
        ),
{
    reveal_strlit("copy_template_");
    let id = spec_template_id(index as nat);
    let prefix = "copy_template_"@;
    assert(id.subrange(0, prefix.len() as int) =~= prefix);
    assert(id.subrange(prefix.len() as int, id.len() as int) =~= decimal(index as nat));
    crate::text::lemma_decimal_round_trip(index);
}

} // verus!

verus! {

/// Application settings the menu reflects and the frontend changes.
#[derive(Debug)]
pub struct AppSettings {
    /// Menu language.
    pub locale: String,
    /// Appearance mode: `auto`, `light` or `dark`.
    pub appearance: String,
    /// Style theme: `modern` or `classic`.
    pub style_theme: String,
    /// Whether the windows stay on top of others.
    pub always_on_top: bool,
    /// Tab the settings window opens on.
    pub settings_tab: String,
    /// Copy templates, in menu order.
    pub templates: Vec<CopyTemplate>,
}

/// The settings as plain values: locale, appearance, style theme, always-on-top, settings
/// tab, and the templates' names and shortcuts.
pub open spec fn settings_view(s: AppSettings) -> (
    Seq<char>,
    Seq<char>,
    Seq<char>,
    bool,
    Seq<char>,
    Seq<(Seq<char>, Seq<char>)>,
) {
    (
        s.locale@,
        s.appearance@,
        s.style_theme@,
        s.always_on_top,
        s.settings_tab@,
        s.templates@.map_values(|t: CopyTemplate| (t.name@, t.shortcut@)),
    )
}

impl AppSettings {
    /// Settings at start-up: English, automatic appearance, modern style, not on top,
    /// general settings tab, no templates.
    pub fn new() -> (s: AppSettings)
        ensures
            settings_view(s) == ("en"@, "auto"@, "modern"@, false, "general"@, Seq::<
                (Seq<char>, Seq<char>),
            >::empty()),
    {
        let s = AppSettings {
            locale: to_string("en"),
            appearance: to_string("auto"),
            style_theme: to_string("modern"),
            always_on_top: false,
            settings_tab: to_string("general"),
            templates: Vec::new(),
        };
        assert(settings_view(s).5 =~= Seq::<(Seq<char>, Seq<char>)>::empty());
        s
    }

    /// Changes the locale; returns whether it changed (an unchanged locale leaves
    /// everything as it was and the menu need not be rebuilt).
    pub fn set_locale(&mut self, locale: &str) -> (changed: bool)
        ensures
            changed == (old(self).locale@ != locale@),
            settings_view(*final(self)) == (
                locale@,
                settings_view(*old(self)).1,
                settings_view(*old(self)).2,
                settings_view(*old(self)).3,
                settings_view(*old(self)).4,
                settings_view(*old(self)).5,
            ),
    {
        if str_eq(self.locale.as_str(), locale) {
            return false;
        }
        self.locale = to_string(locale);
        true
    }

    /// Changes the appearance mode; returns whether it changed.
    pub fn set_appearance(&mut self, appearance: &str) -> (changed: bool)
        ensures
            changed == (old(self).appearance@ != appearance@),
            settings_view(*final(self)) == (
                settings_view(*old(self)).0,
                appearance@,
                settings_view(*old(self)).2,
                settings_view(*old(self)).3,
                settings_view(*old(self)).4,
                settings_view(*old(self)).5,
            ),
    {
        if str_eq(self.appearance.as_str(), appearance) {
            return false;
        }
        self.appearance = to_string(appearance);
        true
    }

    /// Changes the style theme; returns whether it changed.
    pub fn set_style_theme(&mut self, style: &str) -> (changed: bool)
        ensures
            changed == (old(self).style_theme@ != style@),
            settings_view(*final(self)) == (
                settings_view(*old(self)).0,
                settings_view(*old(self)).1,
                style@,
                settings_view(*old(self)).3,
                settings_view(*old(self)).4,
                settings_view(*old(self)).5,
            ),
    {
        if str_eq(self.style_theme.as_str(), style) {
            return false;
        }
        self.style_theme = to_string(style);
        true
    }

    /// Sets whether the windows stay on top.
    pub fn set_always_on_top(&mut self, value: bool)
        ensures
            settings_view(*final(self)) == (
                settings_view(*old(self)).0,
                settings_view(*old(self)).1,
                settings_view(*old(self)).2,
                value,
                settings_view(*old(self)).4,
                settings_view(*old(self)).5,
            ),
    {
        self.always_on_top = value;
    }

    /// Remembers the tab the settings window must open on.
    pub fn set_settings_tab(&mut self, tab: &str)
        ensures
            settings_view(*final(self)) == (
                settings_view(*old(self)).0,
                settings_view(*old(self)).1,
                settings_view(*old(self)).2,
                settings_view(*old(self)).3,
                tab@,
                settings_view(*old(self)).5,
            ),
    {
        self.settings_tab = to_string(tab);
    }

    /// Replaces the copy templates.
    pub fn set_copy_templates(&mut self, templates: Vec<CopyTemplate>)
        ensures
            settings_view(*final(self)) == (
                settings_view(*old(self)).0,
                settings_view(*old(self)).1,
                settings_view(*old(self)).2,
                settings_view(*old(self)).3,
                settings_view(*old(self)).4,
                templates@.map_values(|t: CopyTemplate| (t.name@, t.shortcut@)),
            ),
    {
        self.templates = templates;
    }

    /// The settings change a menu click makes: the settings tab for
    /// [`MenuAction::OpenSettings`], the appearance or style for their items, always-on-top
    /// flipped for its item, nothing for the other actions (an ICC profile choice is kept
    /// in the [`crate::icc::IccSelection`]).
    pub open spec fn after_menu_action(
        s: (Seq<char>, Seq<char>, Seq<char>, bool, Seq<char>, Seq<(Seq<char>, Seq<char>)>),
        a: ActionView,
    ) -> (Seq<char>, Seq<char>, Seq<char>, bool, Seq<char>, Seq<(Seq<char>, Seq<char>)>) {
        match a {
            ActionView::OpenSettings(tab) => (s.0, s.1, s.2, s.3, tab, s.5),
            ActionView::SetAppearance(m) => (s.0, m, s.2, s.3, s.4, s.5),
            ActionView::SetStyleTheme(t) => (s.0, s.1, t, s.3, s.4, s.5),
            ActionView::ToggleAlwaysOnTop => (s.0, s.1, s.2, !s.3, s.4, s.5),
            _ => s,
        }
    }

    /// Applies the settings change of a menu click; see [`AppSettings::after_menu_action`].
    pub fn apply_menu_action(&mut self, action: &MenuAction)
        ensures
            settings_view(*final(self)) == Self::after_menu_action(
                settings_view(*old(self)),
                action_kind(*action),
            ),
    {
        match action {
            MenuAction::OpenSettings(tab) => self.set_settings_tab(tab.as_str()),
            MenuAction::SetAppearance(m) => {
                self.appearance = m.clone();
            },
            MenuAction::SetStyleTheme(t) => {
                self.style_theme = t.clone();
            },
            MenuAction::ToggleAlwaysOnTop => {
                let v = !self.always_on_top;
                self.set_always_on_top(v);
            },
            _ => {},
        }
    }
}

/// Toggling always-on-top twice from the menu gives back the same settings.
pub proof fn lemma_toggle_on_top_twice(
    s: (Seq<char>, Seq<char>, Seq<char>, bool, Seq<char>, Seq<(Seq<char>, Seq<char>)>),
)
    ensures
        AppSettings::after_menu_action(
            AppSettings::after_menu_action(s, ActionView::ToggleAlwaysOnTop),
            ActionView::ToggleAlwaysOnTop,
        ) == s,
{
}


/// A menu click changes exactly the setting it names and keeps every other one: an
/// appearance item sets the appearance, a style item sets the style theme, Settings and
/// About set the settings tab, always-on-top flips that flag; copy templates, ICC profiles
/// and unknown items leave the settings as they were.
pub proof fn lemma_menu_click_sets_its_setting(
    s: (Seq<char>, Seq<char>, Seq<char>, bool, Seq<char>, Seq<(Seq<char>, Seq<char>)>),
    v: Seq<char>,
    n: nat,
)
    ensures
        ({
            let t = AppSettings::after_menu_action(s, ActionView::SetStyleTheme(v));
            t.2 == v && t.0 == s.0 && t.1 == s.1 && t.3 == s.3 && t.4 == s.4 && t.5 == s.5
        }),
        ({
            let t = AppSettings::after_menu_action(s, ActionView::SetAppearance(v));
            t.1 == v && t.0 == s.0 && t.2 == s.2 && t.3 == s.3 && t.4 == s.4 && t.5 == s.5
        }),
        ({
            let t = AppSettings::after_menu_action(s, ActionView::OpenSettings(v));
            t.4 == v && t.0 == s.0 && t.1 == s.1 && t.2 == s.2 && t.3 == s.3 && t.5 == s.5
        }),
        ({
            let t = AppSettings::after_menu_action(s, ActionView::ToggleAlwaysOnTop);
            t.3 == !s.3 && t.0 == s.0 && t.1 == s.1 && t.2 == s.2 && t.4 == s.4 && t.5 == s.5
        }),
        AppSettings::after_menu_action(s, ActionView::CopyTemplate(n)) == s,
        AppSettings::after_menu_action(s, ActionView::SelectIccProfile(v)) == s,
        AppSettings::after_menu_action(s, ActionView::Ignore) == s,
{
}

/// Clicking a style or appearance item sets the setting to the item's own value: after a
/// click on `style_classic` the style theme reads `classic`, after `style_modern` it reads
/// `modern`, and `appearance_auto`, `appearance_light`, `appearance_dark` set the
/// appearance to `auto`, `light`, `dark`.
pub proof fn lemma_style_and_appearance_clicks(
    s: (Seq<char>, Seq<char>, Seq<char>, bool, Seq<char>, Seq<(Seq<char>, Seq<char>)>),
    profiles: Seq<ICCProfile>,
)
    ensures
        AppSettings::after_menu_action(s, spec_menu_action("style_classic"@, profiles)).2 == "classic"@,
        AppSettings::after_menu_action(s, spec_menu_action("style_modern"@, profiles)).2 == "modern"@,
        AppSettings::after_menu_action(s, spec_menu_action("appearance_auto"@, profiles)).1 == "auto"@,
        AppSettings::after_menu_action(s, spec_menu_action("appearance_light"@, profiles)).1 == "light"@,
        AppSettings::after_menu_action(s, spec_menu_action("appearance_dark"@, profiles)).1 == "dark"@,
{
    reveal_strlit("copy_template_");
    reveal_strlit("style_classic");
    reveal_strlit("style_modern");
    reveal_strlit("appearance_auto");
    reveal_strlit("appearance_light");
    reveal_strlit("appearance_dark");
    reveal_strlit("settings");
    reveal_strlit("about");
    assert("style_classic"@.len() < "copy_template_"@.len());
    assert("style_modern"@.len() < "copy_template_"@.len());
    assert("appearance_auto"@.subrange(0, 14)[0] != "copy_template_"@[0]);
    assert("appearance_light"@.subrange(0, 14)[0] != "copy_template_"@[0]);
    assert("appearance_dark"@.subrange(0, 14)[0] != "copy_template_"@[0]);
}

} // verus!
