use vstd::prelude::*;
use crate::text::str_eq;

verus! {

/// A language with a known formatting tool.
#[derive(Clone, Copy, PartialEq, Eq, Structural, Debug)]
pub enum Language {
    Rust,
    PHP,
    JavaScript,
    TypeScript,
}

/// Failure to recognise a language tag.
#[derive(Clone, Copy, PartialEq, Eq, Structural, Debug)]
pub enum LanguageParseError {
    LanguageNotFound,
}

/// The language a tag names, matched exactly (no case folding).
pub open spec fn spec_parse_language(s: Seq<char>) -> Result<Language, LanguageParseError> {
    if s == "rs"@ || s == "rust"@ {
        Ok(Language::Rust)
    } else if s == "php"@ {
        Ok(Language::PHP)
    } else if s == "js"@ || s == "jsx"@ {
        Ok(Language::JavaScript)
    } else if s == "ts"@ || s == "tsx"@ {
        Ok(Language::TypeScript)
    } else {
        Err(LanguageParseError::LanguageNotFound)
    }
}

impl Language {
    /// Parses a language tag.
    pub fn from_str(s: &str) -> (r: Result<Language, LanguageParseError>)
        ensures
            r == spec_parse_language(s@),
    {
        if str_eq(s, "rs") || str_eq(s, "rust") {
            Ok(Language::Rust)
        } else if str_eq(s, "php") {
            Ok(Language::PHP)
        } else if str_eq(s, "js") || str_eq(s, "jsx") {
            Ok(Language::JavaScript)
        } else if str_eq(s, "ts") || str_eq(s, "tsx") {
            Ok(Language::TypeScript)
        } else {
            Err(LanguageParseError::LanguageNotFound)
        }
    }
}

} // verus!
