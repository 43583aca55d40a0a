//! The languages a translation may be configured with.

use vstd::prelude::*;

verus! {

/// A supported language; each has a two-letter code.
#[derive(Debug, Clone, Copy, PartialEq, Eq, Structural)]
pub enum Language {
    Ja,
    En,
    Ar,
    De,
    Es,
    Fr,
    It,
    Pt,
    Ru,
    Zh,
}

/// The code of each language.
pub open spec fn code_of(language: Language) -> Seq<char> {
    match language {
        Language::Ja => "ja"@,
        Language::En => "en"@,
        Language::Ar => "ar"@,
        Language::De => "de"@,
        Language::Es => "es"@,
        Language::Fr => "fr"@,
        Language::It => "it"@,
        Language::Pt => "pt"@,
        Language::Ru => "ru"@,
        Language::Zh => "zh"@,
    }
}

/// The language that a code stands for, if any.
pub open spec fn language_of(code: Seq<char>) -> Option<Language> {
    if code == "ja"@ {
        Some(Language::Ja)
    } else if code == "en"@ {
        Some(Language::En)
    } else if code == "ar"@ {
        Some(Language::Ar)
    } else if code == "de"@ {
        Some(Language::De)
    } else if code == "es"@ {
        Some(Language::Es)
    } else if code == "fr"@ {
        Some(Language::Fr)
    } else if code == "it"@ {
        Some(Language::It)
    } else if code == "pt"@ {
        Some(Language::Pt)
    } else if code == "ru"@ {
        Some(Language::Ru)
    } else if code == "zh"@ {
        Some(Language::Zh)
    } else {
        None
    }
}

/// Every language, in the order in which they are offered.
pub open spec fn all_languages() -> Seq<Language> {
    seq![
        Language::Ja,
        Language::En,
        Language::Ar,
        Language::De,
        Language::Es,
        Language::Fr,
        Language::It,
        Language::Pt,
        Language::Ru,
        Language::Zh,
    ]
}

/// The message with which an unknown code is rejected.
pub open spec fn invalid_language_message(code: Seq<char>) -> Seq<char> {
    "Invalid language: "@ + code
}

impl Language {
    /// The language's code.
    pub fn code(&self) -> (r: &'static str)
        ensures
            r@ == code_of(*self),
    {
        match self {
            Language::Ja => "ja",
            Language::En => "en",
            Language::Ar => "ar",
            Language::De => "de",
            Language::Es => "es",
            Language::Fr => "fr",
            Language::It => "it",
            Language::Pt => "pt",
            Language::Ru => "ru",
            Language::Zh => "zh",
        }
    }

    /// The language's code as an owned string.
    pub fn to_string(&self) -> (r: String)
        ensures
            r@ == code_of(*self),
    {
        self.code().to_owned()
    }

    /// Reads a language from its code. Any other text is rejected, with a
    /// message that quotes it.
    pub fn from_str(s: &str) -> (r: Result<Language, String>)
        ensures
            match r {
                Ok(language) => language_of(s@) == Some(language),
                Err(message) => language_of(s@) is None && message@ == invalid_language_message(
                    s@,
                ),
            },
    {
        let code = s.to_owned();
        if code == "ja".to_owned() {
            Ok(Language::Ja)
        } else if code == "en".to_owned() {
            Ok(Language::En)
        } else if code == "ar".to_owned() {
            Ok(Language::Ar)
        } else if code == "de".to_owned() {
            Ok(Language::De)
        } else if code == "es".to_owned() {
            Ok(Language::Es)
        } else if code == "fr".to_owned() {
            Ok(Language::Fr)
        } else if code == "it".to_owned() {
            Ok(Language::It)
        } else if code == "pt".to_owned() {
            Ok(Language::Pt)
        } else if code == "ru".to_owned() {
            Ok(Language::Ru)
        } else if code == "zh".to_owned() {
            Ok(Language::Zh)
        } else {
            let mut message = "Invalid language: ".to_owned();
            message.append(s);
            Err(message)
        }
    }

    /// Every language, in the order in which they are offered.
    pub fn value_variants() -> (r: Vec<Language>)
        ensures
            r@ == all_languages(),
    {
        let r = vec![
            Language::Ja,
            Language::En,
            Language::Ar,
            Language::De,
            Language::Es,
            Language::Fr,
            Language::It,
            Language::Pt,
            Language::Ru,
            Language::Zh,
        ];
        r
    }
}

/// Makes the ten codes known character by character.
proof fn reveal_codes()
    ensures
        "ja"@ == seq!['j', 'a'],
        "en"@ == seq!['e', 'n'],
        "ar"@ == seq!['a', 'r'],
        "de"@ == seq!['d', 'e'],
        "es"@ == seq!['e', 's'],
        "fr"@ == seq!['f', 'r'],
        "it"@ == seq!['i', 't'],
        "pt"@ == seq!['p', 't'],
        "ru"@ == seq!['r', 'u'],
        "zh"@ == seq!['z', 'h'],
{
    reveal_strlit("ja");
    reveal_strlit("en");
    reveal_strlit("ar");
    reveal_strlit("de");
    reveal_strlit("es");
    reveal_strlit("fr");
    reveal_strlit("it");
    reveal_strlit("pt");
    reveal_strlit("ru");
    reveal_strlit("zh");
}

/// Reading a language's code gives that language back.
pub proof fn code_round_trip(language: Language)
    ensures
        language_of(code_of(language)) == Some(language),
{
    reveal_codes();
}

/// A text that reads as a language is that language's code, so two
/// languages never share a code.
pub proof fn language_of_is_code(code: Seq<char>, language: Language)
    requires
        language_of(code) == Some(language),
    ensures
        code_of(language) == code,
{
}

/// Every language is offered, at the place its declaration gives it.
pub proof fn all_languages_complete(language: Language)
    ensures
        all_languages().contains(language),
        all_languages().len() == 10,
{
}

} // verus!
