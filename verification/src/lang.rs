//! The closed set of display languages.
//!
//! Each language carries three total mappings: a stable serialization
//! identifier, a locale code, and a display label in the language itself.
//! All three are one-to-one over the set, proved below.

use vstd::prelude::*;
use crate::strutil::str_eq;

verus! {

#[derive(Clone, Copy, PartialEq, Eq, Structural, Debug, Hash)]
pub enum Language {
    Czech,
    Norwegian,
    English,
    Danish,
    German,
    French,
    Hungarian,
    Portuguese,
    Russian,
    Slovak,
    Swedish,
    Spanish,
    Turkish,
    Ukrainian,
}

/// The stable serialization identifier of a language.
pub open spec fn language_identifier_spec(l: Language) -> Seq<char> {
    match l {
        Language::Czech => "Czech"@,
        Language::Norwegian => "Norwegian"@,
        Language::English => "English"@,
        Language::Danish => "Danish"@,
        Language::German => "German"@,
        Language::French => "French"@,
        Language::Hungarian => "Hungarian"@,
        Language::Portuguese => "Portuguese"@,
        Language::Russian => "Russian"@,
        Language::Slovak => "Slovak"@,
        Language::Swedish => "Swedish"@,
        Language::Spanish => "Spanish"@,
        Language::Turkish => "Turkish"@,
        Language::Ukrainian => "Ukrainian"@,
    }
}

/// The locale code of a language.
pub open spec fn language_code_spec(l: Language) -> Seq<char> {
    match l {
        Language::Czech => "cs_CZ"@,
        Language::English => "en_US"@,
        Language::Danish => "da_DK"@,
        Language::German => "de_DE"@,
        Language::French => "fr_FR"@,
        Language::Russian => "ru_RU"@,
        Language::Swedish => "se_SE"@,
        Language::Spanish => "es_ES"@,
        Language::Hungarian => "hu_HU"@,
        Language::Norwegian => "nb_NO"@,
        Language::Slovak => "sk_SK"@,
        Language::Turkish => "tr_TR"@,
        Language::Portuguese => "pt_PT"@,
        Language::Ukrainian => "uk_UA"@,
    }
}

/// The display label of a language, written in that language.
pub open spec fn language_label_spec(l: Language) -> Seq<char> {
    match l {
        Language::Czech => "Čeština"@,
        Language::Danish => "Dansk"@,
        Language::English => "English"@,
        Language::French => "Français"@,
        Language::German => "Deutsch"@,
        Language::Hungarian => "Magyar"@,
        Language::Norwegian => "Norsk Bokmål"@,
        Language::Portuguese => "Português"@,
        Language::Russian => "Pусский"@,
        Language::Slovak => "Slovenčina"@,
        Language::Spanish => "Español"@,
        Language::Swedish => "Svenska"@,
        Language::Turkish => "Türkçe"@,
        Language::Ukrainian => "Yкраїнська"@,
    }
}

/// The language whose stable identifier is `s`, if any.
pub open spec fn language_of_identifier_spec(s: Seq<char>) -> Option<Language> {
    if s == language_identifier_spec(Language::Czech) {
        Some(Language::Czech)
    } else if s == language_identifier_spec(Language::Norwegian) {
        Some(Language::Norwegian)
    } else if s == language_identifier_spec(Language::English) {
        Some(Language::English)
    } else if s == language_identifier_spec(Language::Danish) {
        Some(Language::Danish)
    } else if s == language_identifier_spec(Language::German) {
        Some(Language::German)
    } else if s == language_identifier_spec(Language::French) {
        Some(Language::French)
    } else if s == language_identifier_spec(Language::Hungarian) {
        Some(Language::Hungarian)
    } else if s == language_identifier_spec(Language::Portuguese) {
        Some(Language::Portuguese)
    } else if s == language_identifier_spec(Language::Russian) {
        Some(Language::Russian)
    } else if s == language_identifier_spec(Language::Slovak) {
        Some(Language::Slovak)
    } else if s == language_identifier_spec(Language::Swedish) {
        Some(Language::Swedish)
    } else if s == language_identifier_spec(Language::Spanish) {
        Some(Language::Spanish)
    } else if s == language_identifier_spec(Language::Turkish) {
        Some(Language::Turkish)
    } else if s == language_identifier_spec(Language::Ukrainian) {
        Some(Language::Ukrainian)
    } else {
        None
    }
}

impl Language {
    /// The exhaustive list of all languages, ordered alphabetically by their
    /// display labels.
    pub fn all() -> (r: Vec<Language>)
        ensures
            r@ == seq![
                Language::Czech,
                Language::Danish,
                Language::German,
                Language::English,
                Language::Spanish,
                Language::French,
                Language::Hungarian,
                Language::Norwegian,
                Language::Portuguese,
                Language::Russian,
                Language::Slovak,
                Language::Swedish,
                Language::Turkish,
                Language::Ukrainian,
            ],
    {
        let mut v: Vec<Language> = Vec::new();
        v.push(Language::Czech);
        v.push(Language::Danish);
        v.push(Language::German);
        v.push(Language::English);
        v.push(Language::Spanish);
        v.push(Language::French);
        v.push(Language::Hungarian);
        v.push(Language::Norwegian);
        v.push(Language::Portuguese);
        v.push(Language::Russian);
        v.push(Language::Slovak);
        v.push(Language::Swedish);
        v.push(Language::Turkish);
        v.push(Language::Ukrainian);
        proof {
            assert(v@ =~= seq![
                Language::Czech,
                Language::Danish,
                Language::German,
                Language::English,
                Language::Spanish,
                Language::French,
                Language::Hungarian,
                Language::Norwegian,
                Language::Portuguese,
                Language::Russian,
                Language::Slovak,
                Language::Swedish,
                Language::Turkish,
                Language::Ukrainian,
            ]);
        }
        v
    }

    /// The stable serialization identifier, never the display label.
    pub fn identifier(self) -> (r: &'static str)
        ensures
            r@ == language_identifier_spec(self),
    {
        match self {
            Language::Czech => "Czech",
            Language::Norwegian => "Norwegian",
            Language::English => "English",
            Language::Danish => "Danish",
            Language::German => "German",
            Language::French => "French",
            Language::Hungarian => "Hungarian",
            Language::Portuguese => "Portuguese",
            Language::Russian => "Russian",
            Language::Slovak => "Slovak",
            Language::Swedish => "Swedish",
            Language::Spanish => "Spanish",
            Language::Turkish => "Turkish",
            Language::Ukrainian => "Ukrainian",
        }
    }

    /// The locale code of the language.
    pub fn language_code(self) -> (r: &'static str)
        ensures
            r@ == language_code_spec(self),
    {
        match self {
            Language::Czech => "cs_CZ",
            Language::English => "en_US",
            Language::Danish => "da_DK",
            Language::German => "de_DE",
            Language::French => "fr_FR",
            Language::Russian => "ru_RU",
            Language::Swedish => "se_SE",
            Language::Spanish => "es_ES",
            Language::Hungarian => "hu_HU",
            Language::Norwegian => "nb_NO",
            Language::Slovak => "sk_SK",
            Language::Turkish => "tr_TR",
            Language::Portuguese => "pt_PT",
            Language::Ukrainian => "uk_UA",
        }
    }

    /// The human-readable label, written in the language itself.
    pub fn label(self) -> (r: &'static str)
        ensures
            r@ == language_label_spec(self),
    {
        match self {
            Language::Czech => "Čeština",
            Language::Danish => "Dansk",
            Language::English => "English",
            Language::French => "Français",
            Language::German => "Deutsch",
            Language::Hungarian => "Magyar",
            Language::Norwegian => "Norsk Bokmål",
            Language::Portuguese => "Português",
            Language::Russian => "Pусский",
            Language::Slovak => "Slovenčina",
            Language::Spanish => "Español",
            Language::Swedish => "Svenska",
            Language::Turkish => "Türkçe",
            Language::Ukrainian => "Yкраїнська",
        }
    }

    /// Parses a stable identifier back into its language.
    pub fn from_identifier(s: &str) -> (r: Option<Language>)
        ensures
            r == language_of_identifier_spec(s@),
    {
        if str_eq(s, "Czech") {
            Some(Language::Czech)
        } else if str_eq(s, "Norwegian") {
            Some(Language::Norwegian)
        } else if str_eq(s, "English") {
            Some(Language::English)
        } else if str_eq(s, "Danish") {
            Some(Language::Danish)
        } else if str_eq(s, "German") {
            Some(Language::German)
        } else if str_eq(s, "French") {
            Some(Language::French)
        } else if str_eq(s, "Hungarian") {
            Some(Language::Hungarian)
        } else if str_eq(s, "Portuguese") {
            Some(Language::Portuguese)
        } else if str_eq(s, "Russian") {
            Some(Language::Russian)
        } else if str_eq(s, "Slovak") {
            Some(Language::Slovak)
        } else if str_eq(s, "Swedish") {
            Some(Language::Swedish)
        } else if str_eq(s, "Spanish") {
            Some(Language::Spanish)
        } else if str_eq(s, "Turkish") {
            Some(Language::Turkish)
        } else if str_eq(s, "Ukrainian") {
            Some(Language::Ukrainian)
        } else {
            None
        }
    }
}

impl Default for Language {
    /// The language used when persisted data names none.
    fn default() -> (r: Language)
        ensures
            r == Language::English,
    {
        Language::English
    }
}

/// Reveals every identifier literal and pins the facts that tell the
/// fourteen identifiers apart.
proof fn lemma_language_identifiers_distinct()
    ensures
        forall|a: Language, b: Language|
            language_identifier_spec(a) == language_identifier_spec(b) ==> a == b,
{
    reveal_strlit("Czech");
    reveal_strlit("Norwegian");
    reveal_strlit("English");
    reveal_strlit("Danish");
    reveal_strlit("German");
    reveal_strlit("French");
    reveal_strlit("Hungarian");
    reveal_strlit("Portuguese");
    reveal_strlit("Russian");
    reveal_strlit("Slovak");
    reveal_strlit("Swedish");
    reveal_strlit("Spanish");
    reveal_strlit("Turkish");
    reveal_strlit("Ukrainian");
    assert("Czech"@.len() == 5);
    assert("Norwegian"@.len() == 9);
    assert("English"@.len() == 7);
    assert("Danish"@.len() == 6);
    assert("German"@.len() == 6);
    assert("French"@.len() == 6);
    assert("Hungarian"@.len() == 9);
    assert("Portuguese"@.len() == 10);
    assert("Russian"@.len() == 7);
    assert("Slovak"@.len() == 6);
    assert("Swedish"@.len() == 7);
    assert("Spanish"@.len() == 7);
    assert("Turkish"@.len() == 7);
    assert("Ukrainian"@.len() == 9);
    assert("Norwegian"@[0] == 'N');
    assert("Hungarian"@[0] == 'H');
    assert("Ukrainian"@[0] == 'U');
    assert("Danish"@[0] == 'D');
    assert("German"@[0] == 'G');
    assert("French"@[0] == 'F');
    assert("Slovak"@[0] == 'S');
    assert("English"@[0] == 'E');
    assert("Russian"@[0] == 'R');
    assert("Swedish"@[0] == 'S');
    assert("Spanish"@[0] == 'S');
    assert("Turkish"@[0] == 'T');
    assert("Swedish"@[1] == 'w');
    assert("Spanish"@[1] == 'p');
}

/// Every language's identifier parses back to that same language: the
/// identifier mapping is total and one-to-one over the closed set.
pub proof fn lemma_language_identifier_round_trip(l: Language)
    ensures
        language_of_identifier_spec(language_identifier_spec(l)) == Some(l),
{
    lemma_language_identifiers_distinct();
}

/// Distinct languages never share a serialization identifier.
pub proof fn lemma_language_identifier_injective(a: Language, b: Language)
    requires
        language_identifier_spec(a) == language_identifier_spec(b),
    ensures
        a == b,
{
    lemma_language_identifiers_distinct();
}

/// The locale-code mapping is one-to-one: distinct languages never share a
/// code, and every language has one.
pub proof fn lemma_language_code_injective(a: Language, b: Language)
    requires
        language_code_spec(a) == language_code_spec(b),
    ensures
        a == b,
{
    reveal_strlit("cs_CZ");
    reveal_strlit("en_US");
    reveal_strlit("da_DK");
    reveal_strlit("de_DE");
    reveal_strlit("fr_FR");
    reveal_strlit("ru_RU");
    reveal_strlit("se_SE");
    reveal_strlit("es_ES");
    reveal_strlit("hu_HU");
    reveal_strlit("nb_NO");
    reveal_strlit("sk_SK");
    reveal_strlit("tr_TR");
    reveal_strlit("pt_PT");
    reveal_strlit("uk_UA");
    assert("cs_CZ"@[0] == 'c');
    assert("en_US"@[0] == 'e');
    assert("da_DK"@[0] == 'd');
    assert("de_DE"@[0] == 'd');
    assert("fr_FR"@[0] == 'f');
    assert("ru_RU"@[0] == 'r');
    assert("se_SE"@[0] == 's');
    assert("es_ES"@[0] == 'e');
    assert("hu_HU"@[0] == 'h');
    assert("nb_NO"@[0] == 'n');
    assert("sk_SK"@[0] == 's');
    assert("tr_TR"@[0] == 't');
    assert("pt_PT"@[0] == 'p');
    assert("uk_UA"@[0] == 'u');
    assert("cs_CZ"@.len() == 5);
    assert("en_US"@.len() == 5);
    assert("da_DK"@.len() == 5);
    assert("de_DE"@.len() == 5);
    assert("fr_FR"@.len() == 5);
    assert("ru_RU"@.len() == 5);
    assert("se_SE"@.len() == 5);
    assert("es_ES"@.len() == 5);
    assert("hu_HU"@.len() == 5);
    assert("nb_NO"@.len() == 5);
    assert("sk_SK"@.len() == 5);
    assert("tr_TR"@.len() == 5);
    assert("pt_PT"@.len() == 5);
    assert("uk_UA"@.len() == 5);
    assert("da_DK"@[1] == 'a');
    assert("de_DE"@[1] == 'e');
    assert("en_US"@[1] == 'n');
    assert("es_ES"@[1] == 's');
    assert("se_SE"@[1] == 'e');
    assert("sk_SK"@[1] == 'k');
}

/// The display-label mapping is one-to-one: distinct languages never share a
/// label, and every language has one.
pub proof fn lemma_language_label_injective(a: Language, b: Language)
    requires
        language_label_spec(a) == language_label_spec(b),
    ensures
        a == b,
{
    reveal_strlit("Čeština");
    reveal_strlit("Dansk");
    reveal_strlit("English");
    reveal_strlit("Français");
    reveal_strlit("Deutsch");
    reveal_strlit("Magyar");
    reveal_strlit("Norsk Bokmål");
    reveal_strlit("Português");
    reveal_strlit("Pусский");
    reveal_strlit("Slovenčina");
    reveal_strlit("Español");
    reveal_strlit("Svenska");
    reveal_strlit("Türkçe");
    reveal_strlit("Yкраїнська");
    assert("Čeština"@.len() == 7);
    assert("Dansk"@.len() == 5);
    assert("English"@.len() == 7);
    assert("Français"@.len() == 8);
    assert("Deutsch"@.len() == 7);
    assert("Magyar"@.len() == 6);
    assert("Norsk Bokmål"@.len() == 12);
    assert("Português"@.len() == 9);
    assert("Pусский"@.len() == 7);
    assert("Slovenčina"@.len() == 10);
    assert("Español"@.len() == 7);
    assert("Svenska"@.len() == 7);
    assert("Türkçe"@.len() == 6);
    assert("Yкраїнська"@.len() == 10);
    assert("Čeština"@[0] == 'Č');
    assert("English"@[0] == 'E');
    assert("Deutsch"@[0] == 'D');
    assert("Pусский"@[0] == 'P');
    assert("Español"@[0] == 'E');
    assert("Svenska"@[0] == 'S');
    assert("Magyar"@[0] == 'M');
    assert("Türkçe"@[0] == 'T');
    assert("Slovenčina"@[0] == 'S');
    assert("Yкраїнська"@[0] == 'Y');
    assert("English"@[1] == 'n');
    assert("Español"@[1] == 's');
}

} // verus!
