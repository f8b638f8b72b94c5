//! User interface language.
use crate::text::{chars_eq_ignore_ascii_case, chars_of, eq_ignore_ascii_case};
use vstd::prelude::*;

verus! {

/// The two languages of the user interface.
#[derive(Clone, Copy, Debug, PartialEq, Eq, Structural)]
pub enum Language {
    German,
    English,
}

impl Language {
    /// Picks the text for this language.
    pub fn text(self, german: &'static str, english: &'static str) -> (r: &'static str)
        ensures
            r == (match self {
                Language::German => german,
                Language::English => english,
            }),
    {
        match self {
            Language::German => german,
            Language::English => english,
        }
    }

    /// The language stored under `Language` (`None` when nothing is stored):
    /// English when the stored text is "en" in any letter case, German
    /// otherwise.
    pub fn current(stored: Option<&str>) -> (r: Self)
        ensures
            r == language_of(match stored {
                Some(t) => Some(t@),
                None => None,
            }),
    {
        match stored {
            Some(t) => {
                let v = chars_of(t);
                if chars_eq_ignore_ascii_case(&v, "en") {
                    Language::English
                } else {
                    Language::German
                }
            },
            None => Language::German,
        }
    }

    /// The value stored for this language in the settings ("de" or "en").
    pub fn setting_value(self) -> (r: &'static str)
        ensures
            r@ == stored_text(self),
    {
        match self {
            Language::German => "de",
            Language::English => "en",
        }
    }
}

/// The language that a stored text reads as.
pub open spec fn language_of(stored: Option<Seq<char>>) -> Language {
    match stored {
        Some(t) => if eq_ignore_ascii_case(t, "en"@) {
            Language::English
        } else {
            Language::German
        },
        None => Language::German,
    }
}

/// A stored language reads back as the language that was stored.
pub proof fn lemma_language_round_trip(language: Language)
    ensures
        language_of(Some(stored_text(language))) == language,
{
    reveal_strlit("de");
    reveal_strlit("en");
    assert(!eq_ignore_ascii_case("de"@, "en"@)) by {
        assert(crate::text::ascii_lower("de"@[0]) != crate::text::ascii_lower("en"@[0]));
    }
}

/// The stored text of a language.
pub open spec fn stored_text(language: Language) -> Seq<char> {
    match language {
        Language::German => "de"@,
        Language::English => "en"@,
    }
}

} // verus!
