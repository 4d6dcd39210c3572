//! Translation of the native menu: per-language tables, the locale dispatch and the
//! English fallback.

use vstd::prelude::*;
use crate::text::{str_eq, to_string};

verus! {

/// Translations of menu keys for one language.
pub struct TranslationTable {
    entries: Vec<(String, String)>,
}

/// First text recorded for `key` in `entries`.
pub open spec fn spec_lookup(entries: Seq<(Seq<char>, Seq<char>)>, key: Seq<char>) -> Option<Seq<char>>
    decreases entries.len(),
{
    if entries.len() == 0 {
        None
    } else if entries[0].0 == key {
        Some(entries[0].1)
    } else {
        spec_lookup(entries.drop_first(), key)
    }
}

impl TranslationTable {
    /// The (key, text) pairs, in order.
    pub closed spec fn spec_entries(&self) -> Seq<(Seq<char>, Seq<char>)> {
        self.entries@.map_values(|e: (String, String)| (e.0@, e.1@))
    }

    /// A table made of the given (key, text) pairs; for a key given twice the first counts.
    pub fn new(entries: Vec<(String, String)>) -> (t: TranslationTable)
        ensures
            t.spec_entries() == entries@.map_values(|e: (String, String)| (e.0@, e.1@)),
    {
        TranslationTable { entries }
    }

    /// The translation of `key`, if the table has one.
    pub fn t(&self, key: &str) -> (r: Option<String>)
        ensures
            match spec_lookup(self.spec_entries(), key@) {
                Some(s) => r matches Some(x) && x@ == s,
                None => r is None,
            },
    {
        let ghost all = self.spec_entries();
        let mut i: usize = 0;
        assert(all.subrange(0, all.len() as int) =~= all);
        while i < self.entries.len()
            invariant
                i <= self.entries@.len(),
                all == self.spec_entries(),
                all.len() == self.entries@.len(),
                spec_lookup(all, key@) == spec_lookup(all.subrange(i as int, all.len() as int), key@),
            decreases self.entries.len() - i,
        {
            let ghost rest = all.subrange(i as int, all.len() as int);
            assert(rest[0] == (self.entries@[i as int].0@, self.entries@[i as int].1@));
            assert(rest.drop_first() =~= all.subrange(i + 1, all.len() as int));
            if str_eq(self.entries[i].0.as_str(), key) {
                return Some(self.entries[i].1.clone());
            }
            i = i + 1;
        }
        assert(all.subrange(i as int, all.len() as int) =~= Seq::<(Seq<char>, Seq<char>)>::empty());
        None
    }
}

/// The menu translations of every supported language.
pub struct MenuCatalog {
    /// English (also the fallback).
    pub en: TranslationTable,
    /// French.
    pub fr: TranslationTable,
    /// Slovak.
    pub sk: TranslationTable,
}

/// The table a locale reads: `fr` and `sk` have their own, `en` and any other locale read
/// English.
pub open spec fn spec_table_for(catalog: &MenuCatalog, locale: Seq<char>) -> Seq<(Seq<char>, Seq<char>)> {
    if locale == "fr"@ {
        catalog.fr.spec_entries()
    } else if locale == "sk"@ {
        catalog.sk.spec_entries()
    } else {
        catalog.en.spec_entries()
    }
}

proof fn lemma_locales_distinct()
    ensures
        "en"@ != "fr"@,
        "en"@ != "sk"@,
        "fr"@ != "sk"@,
{
    reveal_strlit("en");
    reveal_strlit("fr");
    reveal_strlit("sk");
    assert("en"@[0] != "fr"@[0]);
    assert("en"@[0] != "sk"@[0]);
    assert("fr"@[0] != "sk"@[0]);
}

/// Translation of a menu key for a locale: the locale's text, else the English one,
/// else `?`.
pub open spec fn spec_menu_t(catalog: &MenuCatalog, locale: Seq<char>, key: Seq<char>) -> Seq<char> {
    match spec_lookup(spec_table_for(catalog, locale), key) {
        Some(s) => s,
        None => match spec_lookup(catalog.en.spec_entries(), key) {
            Some(s) => s,
            None => "?"@,
        },
    }
}

/// Returns the translation of a menu key for a locale; see [`spec_menu_t`].
pub fn menu_t(catalog: &MenuCatalog, locale: &str, key: &str) -> (r: String)
    ensures
        r@ == spec_menu_t(catalog, locale@, key@),
{
    let lookup = if str_eq(locale, "en") {
        catalog.en.t(key)
    } else if str_eq(locale, "fr") {
        catalog.fr.t(key)
    } else if str_eq(locale, "sk") {
        catalog.sk.t(key)
    } else {
        catalog.en.t(key)
    };
    proof {
        lemma_locales_distinct();
    }
    match lookup {
        Some(s) => s,
        None => match catalog.en.t(key) {
            Some(s) => s,
            None => to_string("?"),
        },
    }
}

/// A locale without its own table reads exactly the English menu, and a key that English
/// translates never comes out as `?` whatever the locale; `?` comes out only for keys that
/// neither the locale nor English knows.
pub proof fn lemma_menu_t_fallback(catalog: &MenuCatalog, locale: Seq<char>, key: Seq<char>)
    ensures
        locale != "fr"@ && locale != "sk"@ ==> spec_menu_t(catalog, locale, key) == spec_menu_t(
            catalog,
            "en"@,
            key,
        ),
        (spec_lookup(spec_table_for(catalog, locale), key) is None && spec_lookup(
            catalog.en.spec_entries(),
            key,
        ) is None) <==> spec_menu_t(catalog, locale, key) == "?"@ && spec_lookup(
            spec_table_for(catalog, locale),
            key,
        ) != Some("?"@) && spec_lookup(catalog.en.spec_entries(), key) != Some("?"@),
{
    lemma_locales_distinct();
}

} // verus!
