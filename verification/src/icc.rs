//! ICC profile choice: the profiles a platform offers, which one is selected, and the ids
//! of their menu items.

use vstd::prelude::*;
use crate::text::{
    push_str, replace_spaces, spaces_to_underscores, str_eq, str_to_lowercase, to_lowercase,
    to_string,
};

verus! {

/// An ICC profile as shown to the user.
#[derive(Clone, Debug)]
pub struct ICCProfile {
    /// Profile name (unique identifier).
    pub name: String,
    /// Human-readable description.
    pub description: String,
    /// Whether this profile is the selected one.
    pub is_current: bool,
}

/// Name, description and selection flag of a profile.
pub open spec fn profile_view(p: ICCProfile) -> (Seq<char>, Seq<char>, bool) {
    (p.name@, p.description@, p.is_current)
}

/// The views of a list of profiles.
pub open spec fn profiles_view(ps: Seq<ICCProfile>) -> Seq<(Seq<char>, Seq<char>, bool)> {
    ps.map_values(|p: ICCProfile| profile_view(p))
}

/// Name of the automatic profile, selected when nothing else is.
pub open spec fn auto_name() -> Seq<char> {
    seq!['A', 'u', 't', 'o']
}

fn make_profile(name: &str, description: &str) -> (p: ICCProfile)
    ensures
        p.name@ == name@,
        p.description@ == description@,
        !p.is_current,
{
    ICCProfile { name: to_string(name), description: to_string(description), is_current: false }
}

/// The automatic profile: colours are used as captured.
pub fn auto_profile() -> (p: ICCProfile)
    ensures
        p.name@ == auto_name(),
        p.description@ == "Automatic color space detection"@,
        !p.is_current,
{
    proof {
        reveal_strlit("Auto");
    }
    make_profile("Auto", "Automatic color space detection")
}

/// Profiles offered on Windows: automatic, sRGB and Adobe RGB.
pub fn windows_color_spaces() -> (v: Vec<ICCProfile>)
    ensures
        profiles_view(v@) == seq![
            (auto_name(), "Automatic color space detection"@, false),
            ("sRGB"@, "sRGB IEC61966-2.1 (Standard web)"@, false),
            ("Adobe RGB"@, "Adobe RGB (1998)"@, false),
        ],
{
    let mut v = Vec::new();
    v.push(auto_profile());
    v.push(make_profile("sRGB", "sRGB IEC61966-2.1 (Standard web)"));
    v.push(make_profile("Adobe RGB", "Adobe RGB (1998)"));
    assert(profiles_view(v@) =~= seq![
        (auto_name(), "Automatic color space detection"@, false),
        ("sRGB"@, "sRGB IEC61966-2.1 (Standard web)"@, false),
        ("Adobe RGB"@, "Adobe RGB (1998)"@, false),
    ]);
    v
}

/// Profiles offered on Linux: automatic and sRGB.
pub fn linux_color_spaces() -> (v: Vec<ICCProfile>)
    ensures
        profiles_view(v@) == seq![
            (auto_name(), "Automatic color space detection"@, false),
            ("sRGB"@, "sRGB IEC61966-2.1 (Standard web)"@, false),
        ],
{
    let mut v = Vec::new();
    v.push(auto_profile());
    v.push(make_profile("sRGB", "sRGB IEC61966-2.1 (Standard web)"));
    assert(profiles_view(v@) =~= seq![
        (auto_name(), "Automatic color space detection"@, false),
        ("sRGB"@, "sRGB IEC61966-2.1 (Standard web)"@, false),
    ]);
    v
}

/// Profiles offered on other platforms: the automatic one only.
pub fn fallback_color_spaces() -> (v: Vec<ICCProfile>)
    ensures
        profiles_view(v@) == seq![(auto_name(), "Automatic color space detection"@, false)],
{
    let mut v = Vec::new();
    v.push(auto_profile());
    assert(profiles_view(v@) =~= seq![(auto_name(), "Automatic color space detection"@, false)]);
    v
}

/// The profiles built from the localized names of the system's RGB colour spaces: the
/// automatic profile first, then one profile per named colour space, in order, whose
/// description is its name. Colour spaces without a name are left out.
pub open spec fn spec_named_profiles(names: Seq<Option<String>>) -> Seq<(Seq<char>, Seq<char>, bool)>
    decreases names.len(),
{
    if names.len() == 0 {
        seq![]
    } else {
        let rest = spec_named_profiles(names.drop_last());
        match names.last() {
            Some(n) => rest.push((n@, n@, false)),
            None => rest,
        }
    }
}

/// Profiles for the colour spaces macOS lists, from their localized names (`None` for a
/// colour space without one); see [`spec_named_profiles`].
pub fn macos_color_spaces(names: &Vec<Option<String>>) -> (v: Vec<ICCProfile>)
    ensures
        profiles_view(v@) == seq![(auto_name(), "Automatic color space detection"@, false)]
            + spec_named_profiles(names@),
{
    let mut v = Vec::new();
    v.push(auto_profile());
    let ghost head = seq![(auto_name(), "Automatic color space detection"@, false)];
    assert(profiles_view(v@) =~= head + spec_named_profiles(names@.subrange(0, 0)));
    let mut i: usize = 0;
    while i < names.len()
        invariant
            i <= names@.len(),
            head == seq![(auto_name(), "Automatic color space detection"@, false)],
            profiles_view(v@) == head + spec_named_profiles(names@.subrange(0, i as int)),
        decreases names.len() - i,
    {
        let ghost prev = v@;
        match &names[i] {
            Some(n) => {
                let name = to_string(n.as_str());
                let description = to_string(n.as_str());
                let q = ICCProfile { name, description, is_current: false };
                v.push(q);
                assert(profiles_view(v@) =~= profiles_view(prev).push(profile_view(q)));
            },
            None => {
                assert(profiles_view(v@) =~= profiles_view(prev));
            },
        }
        proof {
            assert(names@.subrange(0, i + 1).drop_last() =~= names@.subrange(0, i as int));
            assert(names@.subrange(0, i + 1).last() == names@[i as int]);
            assert(profiles_view(v@) =~= head + spec_named_profiles(names@.subrange(0, i + 1)));
        }
        i = i + 1;
    }
    assert(names@.subrange(0, names@.len() as int) =~= names@);
    v
}

/// The profile selection of the application: a profile name, or none (automatic).
pub struct IccSelection {
    selected: Option<String>,
}

/// Name of the current profile: the selected one, or `Auto`.
pub open spec fn spec_current_name(selected: Option<Seq<char>>) -> Seq<char> {
    match selected {
        Some(n) => n,
        None => auto_name(),
    }
}

/// `profiles` with exactly the ones named `current` marked as current.
pub open spec fn spec_mark_current(
    profiles: Seq<(Seq<char>, Seq<char>, bool)>,
    current: Seq<char>,
) -> Seq<(Seq<char>, Seq<char>, bool)> {
    profiles.map_values(|p: (Seq<char>, Seq<char>, bool)| (p.0, p.1, p.0 == current))
}

/// Index of the first colour space whose localized name is `name`.
pub open spec fn spec_first_named(names: Seq<Option<String>>, name: Seq<char>) -> Option<int>
    decreases names.len(),
{
    if names.len() == 0 {
        None
    } else if names[0] matches Some(n) && n@ == name {
        Some(0)
    } else {
        match spec_first_named(names.drop_first(), name) {
            Some(i) => Some(i + 1),
            None => None,
        }
    }
}

impl IccSelection {
    /// The selected profile name, `None` for automatic.
    pub closed spec fn spec_selected(&self) -> Option<Seq<char>> {
        match self.selected {
            Some(s) => Some(s@),
            None => None,
        }
    }

    /// No profile selected: automatic.
    pub fn new() -> (s: IccSelection)
        ensures
            s.spec_selected() is None,
    {
        IccSelection { selected: None }
    }

    /// Selects the profile `profile_name`.
    pub fn select_icc_profile(&mut self, profile_name: String)
        ensures
            final(self).spec_selected() == Some(profile_name@),
    {
        self.selected = Some(profile_name);
    }

    /// The selected profile name, if any.
    pub fn get_selected_icc_profile(&self) -> (r: Option<String>)
        ensures
            match r {
                Some(s) => self.spec_selected() == Some(s@),
                None => self.spec_selected() is None,
            },
    {
        match &self.selected {
            Some(s) => Some(s.clone()),
            None => None,
        }
    }

    /// Name of the current profile: the selected one, or `Auto`.
    pub fn get_current_profile_name(&self) -> (r: String)
        ensures
            r@ == spec_current_name(self.spec_selected()),
    {
        match &self.selected {
            Some(s) => s.clone(),
            None => {
                proof {
                    reveal_strlit("Auto");
                }
                to_string("Auto")
            },
        }
    }

    /// The offered `profiles`, each marked current exactly when its name is the current
    /// profile name.
    pub fn list_icc_profiles(&self, profiles: Vec<ICCProfile>) -> (r: Vec<ICCProfile>)
        ensures
            profiles_view(r@) == spec_mark_current(
                profiles_view(profiles@),
                spec_current_name(self.spec_selected()),
            ),
    {
        let current = self.get_current_profile_name();
        let ghost original = profiles_view(profiles@);
        let ghost cur = current@;
        let mut r: Vec<ICCProfile> = Vec::new();
        let mut i: usize = 0;
        while i < profiles.len()
            invariant
                i <= profiles@.len(),
                original == profiles_view(profiles@),
                cur == current@,
                profiles_view(r@) == spec_mark_current(original.subrange(0, i as int), cur),
            decreases profiles.len() - i,
        {
            let p = &profiles[i];
            let is_current = str_eq(p.name.as_str(), current.as_str());
            let q = ICCProfile { name: p.name.clone(), description: p.description.clone(), is_current };
            let ghost prev = r@;
            r.push(q);
            proof {
                assert(profile_view(q) == (original[i as int].0, original[i as int].1, original[i as int].0 == cur));
                assert(profiles_view(r@) =~= profiles_view(prev).push(profile_view(q)));
            }
            i = i + 1;
            assert(profiles_view(r@) =~= spec_mark_current(original.subrange(0, i as int), cur));
        }
        assert(original.subrange(0, i as int) =~= original);
        r
    }

    /// Index of the colour space to convert from: none when the selection is automatic (no
    /// selection, or `Auto`), otherwise the first colour space whose localized name is the
    /// selected name, if any.
    pub fn selected_color_space_index(&self, names: &Vec<Option<String>>) -> (r: Option<usize>)
        ensures
            r == (match self.spec_selected() {
                Some(n) if n != auto_name() => match spec_first_named(names@, n) {
                    Some(i) => Some(i as usize),
                    None => None,
                },
                _ => None,
            }),
    {
        let name = match &self.selected {
            Some(n) => n,
            None => return None,
        };
        proof {
            reveal_strlit("Auto");
            assert("Auto"@ =~= auto_name());
        }
        if str_eq(name.as_str(), "Auto") {
            return None;
        }
        assert(self.spec_selected() == Some(name@));
        assert(name@ != auto_name());
        let mut i: usize = 0;
        assert(names@.subrange(0, names@.len() as int) =~= names@);
        while i < names.len()
            invariant
                i <= names@.len(),
                self.spec_selected() == Some(name@),
                name@ != auto_name(),
                spec_first_named(names@, name@) == match spec_first_named(
                    names@.subrange(i as int, names@.len() as int),
                    name@,
                ) {
                    Some(k) => Some(k + i),
                    None => None,
                },
            decreases names.len() - i,
        {
            let ghost rest = names@.subrange(i as int, names@.len() as int);
            assert(rest[0] == names@[i as int]);
            assert(rest.drop_first() =~= names@.subrange(i + 1, names@.len() as int));
            match &names[i] {
                Some(m) => {
                    if str_eq(m.as_str(), name.as_str()) {
                        assert(rest[0] == Some(*m));
                        assert(spec_first_named(rest, name@) == Some(0int));
                        return Some(i);
                    }
                },
                None => {},
            }
            i = i + 1;
        }
        assert(names@.subrange(i as int, names@.len() as int) =~= Seq::<Option<String>>::empty());
        None
    }
}

/// Prefix of the ids of ICC profile menu items.
pub open spec fn icc_menu_prefix() -> Seq<char> {
    "icc_profile_"@
}

/// Menu id built from an already lowercased profile name: the prefix, then the name with
/// spaces turned into underscores.
pub open spec fn spec_menu_id_from_lowercase(lower: Seq<char>) -> Seq<char> {
    icc_menu_prefix() + spaces_to_underscores(lower)
}

/// Menu id of the profile named `name`: the prefix, then the name lowercased with spaces
/// turned into underscores.
pub open spec fn spec_menu_id(name: Seq<char>) -> Seq<char> {
    spec_menu_id_from_lowercase(str_to_lowercase(name))
}

/// Menu id from a lowercased profile name; see [`spec_menu_id_from_lowercase`].
pub fn menu_id_from_lowercase(lower: &str) -> (id: String)
    ensures
        id@ == spec_menu_id_from_lowercase(lower@),
{
    proof {
        reveal_strlit("icc_profile_");
    }
    let replaced = replace_spaces(lower);
    let mut id = to_string("icc_profile_");
    push_str(&mut id, replaced.as_str());
    id
}

/// Menu id of the profile named `name`; see [`spec_menu_id`].
pub fn profile_name_to_menu_id(name: &str) -> (id: String)
    ensures
        id@ == spec_menu_id(name@),
{
    let lower = to_lowercase(name);
    menu_id_from_lowercase(lower.as_str())
}

/// Index of the first profile whose menu id is `menu_id`.
pub open spec fn spec_profile_for_id(profiles: Seq<ICCProfile>, menu_id: Seq<char>) -> Option<int>
    decreases profiles.len(),
{
    if profiles.len() == 0 {
        None
    } else if spec_menu_id(profiles[0].name@) == menu_id {
        Some(0)
    } else {
        match spec_profile_for_id(profiles.drop_first(), menu_id) {
            Some(i) => Some(i + 1),
            None => None,
        }
    }
}

/// Name of the profile a menu item id stands for: the first of `profiles` whose menu id is
/// `menu_id`, if any.
pub fn menu_id_to_profile_name(menu_id: &str, profiles: &Vec<ICCProfile>) -> (r: Option<String>)
    ensures
        match spec_profile_for_id(profiles@, menu_id@) {
            Some(i) => r matches Some(n) && n@ == profiles@[i].name@,
            None => r is None,
        },
{
    proof {
        reveal_strlit("icc_profile_");
    }
    if !crate::text::starts_with(menu_id, "icc_profile_") {
        proof {
            lemma_no_id_without_prefix(profiles@, menu_id@);
        }
        return None;
    }
    let mut i: usize = 0;
    assert(profiles@.subrange(0, profiles@.len() as int) =~= profiles@);
    while i < profiles.len()
        invariant
            i <= profiles@.len(),
            spec_profile_for_id(profiles@, menu_id@) == match spec_profile_for_id(
                profiles@.subrange(i as int, profiles@.len() as int),
                menu_id@,
            ) {
                Some(k) => Some(k + i),
                None => None,
            },
        decreases profiles.len() - i,
    {
        let ghost rest = profiles@.subrange(i as int, profiles@.len() as int);
        assert(rest[0] == profiles@[i as int]);
        assert(rest.drop_first() =~= profiles@.subrange(i + 1, profiles@.len() as int));
        let id = profile_name_to_menu_id(profiles[i].name.as_str());
        if str_eq(id.as_str(), menu_id) {
            return Some(profiles[i].name.clone());
        }
        i = i + 1;
    }
    assert(profiles@.subrange(i as int, profiles@.len() as int) =~= Seq::<ICCProfile>::empty());
    None
}

proof fn lemma_no_id_without_prefix(profiles: Seq<ICCProfile>, menu_id: Seq<char>)
    requires
        !(icc_menu_prefix().len() <= menu_id.len() && menu_id.subrange(
            0,
            icc_menu_prefix().len() as int,
        ) == icc_menu_prefix()),
    ensures
        spec_profile_for_id(profiles, menu_id) is None,
    decreases profiles.len(),
{
    if profiles.len() > 0 {
        let id = spec_menu_id(profiles[0].name@);
        assert(id.subrange(0, icc_menu_prefix().len() as int) =~= icc_menu_prefix());
        lemma_no_id_without_prefix(profiles.drop_first(), menu_id);
    }
}

} // verus!

verus! {

/// Listing marks a profile current exactly when its name is the current name; when the
/// offered names are distinct and the current name is among them, exactly that one profile
/// is current.
pub proof fn lemma_one_current_profile(
    profiles: Seq<(Seq<char>, Seq<char>, bool)>,
    current: Seq<char>,
    k: int,
)
    requires
        0 <= k < profiles.len(),
        profiles[k].0 == current,
        forall|a: int, b: int|
            0 <= a < b < profiles.len() ==> #[trigger] profiles[a].0 != #[trigger] profiles[b].0,
    ensures
        spec_mark_current(profiles, current).len() == profiles.len(),
        forall|j: int|
            0 <= j < profiles.len() ==> (#[trigger] spec_mark_current(profiles, current)[j].2
                <==> j == k),
        forall|j: int|
            0 <= j < profiles.len() ==> #[trigger] spec_mark_current(profiles, current)[j].0
                == profiles[j].0,
{
    assert forall|j: int| 0 <= j < profiles.len() implies (#[trigger] spec_mark_current(
        profiles,
        current,
    )[j].2 <==> j == k) by {
        if j < k {
            assert(profiles[j].0 != profiles[k].0);
        } else if j > k {
            assert(profiles[k].0 != profiles[j].0);
        }
    }
}

/// A selection reads back what was written: after selecting `name`, the current profile
/// name is `name`; with nothing selected it is `Auto`, which every platform lists first.
pub proof fn lemma_current_name_after_select(name: Seq<char>)
    ensures
        spec_current_name(Some(name)) == name,
        spec_current_name(None) == auto_name(),
{
}

/// A menu item id leads back to its profile: when the offered profiles have distinct menu
/// ids, the id of the profile at `k` is resolved to that profile.
pub proof fn lemma_menu_id_round_trip(profiles: Seq<ICCProfile>, k: int)
    requires
        0 <= k < profiles.len(),
        forall|a: int, b: int|
            0 <= a < b < profiles.len() ==> spec_menu_id(#[trigger] profiles[a].name@) != spec_menu_id(
                #[trigger] profiles[b].name@,
            ),
    ensures
        spec_profile_for_id(profiles, spec_menu_id(profiles[k].name@)) == Some(k),
    decreases k,
{
    if k > 0 {
        let rest = profiles.drop_first();
        assert(spec_menu_id(profiles[0].name@) != spec_menu_id(profiles[k].name@));
        assert(rest[k - 1] == profiles[k]);
        assert forall|a: int, b: int|
            0 <= a < b < rest.len() implies spec_menu_id(#[trigger] rest[a].name@) != spec_menu_id(
            #[trigger] rest[b].name@,
        ) by {
            assert(rest[a] == profiles[a + 1]);
            assert(rest[b] == profiles[b + 1]);
        }
        lemma_menu_id_round_trip(rest, k - 1);
    }
}

} // verus!
