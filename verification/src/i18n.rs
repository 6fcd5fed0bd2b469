//! The translation table: the canned strings the chat exemplar is built from,
//! keyed by language.
use vstd::prelude::*;

verus! {

#[derive(Clone, Copy, PartialEq, Eq, Structural, Debug, Hash)]
pub enum Language {
    English,
}

/// Specification-level image of an `I18nTranslation`.
pub ghost struct I18nTranslationV {
    pub commit_fix: Seq<char>,
    pub commit_feat: Seq<char>,
    pub commit_description: Seq<char>,
    pub language: Seq<char>,
}

#[derive(Clone, Debug)]
pub struct I18nTranslation {
    pub commit_fix: String,
    pub commit_feat: String,
    pub commit_description: String,
    pub language: String,
}

impl View for I18nTranslation {
    type V = I18nTranslationV;

    open spec fn view(&self) -> I18nTranslationV {
        I18nTranslationV {
            commit_fix: self.commit_fix@,
            commit_feat: self.commit_feat@,
            commit_description: self.commit_description@,
            language: self.language@,
        }
    }
}

impl I18nTranslation {
    /// Rebuilds an owned copy of this translation.
    pub fn duplicate(&self) -> (r: Self)
        ensures
            r@ == self@,
    {
        I18nTranslation {
            commit_fix: self.commit_fix.clone(),
            commit_feat: self.commit_feat.clone(),
            commit_description: self.commit_description.clone(),
            language: self.language.clone(),
        }
    }
}

#[derive(Clone, Debug)]
pub struct I18n {
    translations: Vec<(Language, I18nTranslation)>,
}

/// The index of the first entry for `l`, or the length when there is none.
pub open spec fn find_from(s: Seq<(Language, I18nTranslation)>, l: Language, i: int) -> int
    decreases s.len() - i,
{
    if i < 0 || i >= s.len() {
        s.len() as int
    } else if s[i].0 == l {
        i
    } else {
        find_from(s, l, i + 1)
    }
}

impl I18n {
    pub fn new(translations: Vec<(Language, I18nTranslation)>) -> (r: Self)
        ensures
            r.entries() == translations@,
    {
        Self { translations }
    }

    /// The table's entries, in insertion order.
    pub closed spec fn entries(&self) -> Seq<(Language, I18nTranslation)> {
        self.translations@
    }

    /// Looks a language up, returning its first entry.
    pub fn get(&self, local: &Language) -> (r: Option<&I18nTranslation>)
        ensures
            match r {
                Some(t) => {
                    let i = find_from(self.entries(), *local, 0);
                    i < self.entries().len() && *t == self.entries()[i].1
                },
                None => find_from(self.entries(), *local, 0) == self.entries().len(),
            },
    {
        let n = self.translations.len();
        let mut i: usize = 0;
        while i < n
            invariant
                n == self.translations@.len(),
                i <= n,
                find_from(self.entries(), *local, 0) == find_from(self.entries(), *local, i as int),
            decreases n - i,
        {
            let entry = &self.translations[i];
            let matches_key = match (&entry.0, local) {
                (Language::English, Language::English) => true,
            };
            if matches_key {
                proof {
                    assert(find_from(self.entries(), *local, i as int) == i);
                }
                return Some(&self.translations[i].1);
            }
            proof {
                assert(self.entries()[i as int].0 != *local);
            }
            i = i + 1;
        }
        None
    }
}

/// The English strings of the illustrative exchange: a fix line, a feature
/// line, and a worked description.
pub fn english_translation() -> (r: I18nTranslation)
    ensures
        r@ == english_translation_spec(),
{
    let mut commit_description = String::new();
    commit_description.append(
        "After further testing, it was determined that JSON response data for the joke endpoint contained leading/trailing white space. To fix the issue, string trimming was added to the JSON parsing step.\n            To improve the error handling logic of the API request, a `match` expression was added to handle the case when the API request fails.\n            Updates:\n            - The `serde_json::from_str` function now uses `trim()` function to remove leading/trailing spaces before data parsing. \n            - A `match` expression now handles the `Err` case when making the API request.",
    );
    I18nTranslation {
        commit_fix: crate::strutil::str_to_string(
            "fix(main.rs): Correct JSON parsing issue for joke response ",
        ),
        commit_feat: crate::strutil::str_to_string(
            "feat(main.rs): Add error handling for API request ",
        ),
        commit_description,
        language: crate::strutil::str_to_string("English"),
    }
}

/// What the English translation says.
pub open spec fn english_translation_spec() -> I18nTranslationV {
    I18nTranslationV {
        commit_fix: "fix(main.rs): Correct JSON parsing issue for joke response "@,
        commit_feat: "feat(main.rs): Add error handling for API request "@,
        commit_description: "After further testing, it was determined that JSON response data for the joke endpoint contained leading/trailing white space. To fix the issue, string trimming was added to the JSON parsing step.\n            To improve the error handling logic of the API request, a `match` expression was added to handle the case when the API request fails.\n            Updates:\n            - The `serde_json::from_str` function now uses `trim()` function to remove leading/trailing spaces before data parsing. \n            - A `match` expression now handles the `Err` case when making the API request."@,
        language: "English"@,
    }
}

/// Builds the table with its one English entry.
pub fn load_i18n() -> (r: I18n)
    ensures
        r.entries().len() == 1,
        r.entries()[0].0 == Language::English,
        r.entries()[0].1@ == english_translation_spec(),
{
    let mut translations: Vec<(Language, I18nTranslation)> = Vec::new();
    translations.push((Language::English, english_translation()));
    I18n::new(translations)
}

/// Fetches the translation for a language from a freshly loaded table.
pub fn get_translation(local: &Language) -> (r: Option<I18nTranslation>)
    ensures
        match r {
            Some(t) => *local == Language::English && t@ == english_translation_spec(),
            None => *local != Language::English,
        },
{
    let i18n = load_i18n();
    let translation = i18n.get(local);
    match translation {
        Some(t) => Some(t.duplicate()),
        None => None,
    }
}

} // verus!
