use format_core::error::{response_parts, FormatError};
use format_core::language::{Language, LanguageParseError};

#[test]
fn formatter_failed_message() {
    let e = FormatError::FormatterFailed("No such file or directory (os error 2)".to_string());
    assert_eq!(
        e.message(),
        "Formatter failed: No such file or directory (os error 2)"
    );
}

#[test]
fn formatter_error_message_is_verbatim() {
    let e = FormatError::FormatterError("expected `;` on line 3".to_string());
    assert_eq!(e.message(), "expected `;` on line 3");
}

#[test]
fn status_code_messages() {
    assert_eq!(
        FormatError::FormatterStatusCode(0).message(),
        "Formatter replied with status code: 0"
    );
    assert_eq!(
        FormatError::FormatterStatusCode(101).message(),
        "Formatter replied with status code: 101"
    );
    assert_eq!(
        FormatError::FormatterStatusCode(-5).message(),
        "Formatter replied with status code: -5"
    );
    assert_eq!(
        FormatError::FormatterStatusCode(i32::MIN).message(),
        "Formatter replied with status code: -2147483648"
    );
    assert_eq!(
        FormatError::FormatterStatusCode(i32::MAX).message(),
        "Formatter replied with status code: 2147483647"
    );
}

#[test]
fn temp_file_messages_hide_the_detail() {
    let e = FormatError::CannotCreateTempFile("permission denied".to_string());
    assert_eq!(e.message(), "Cannot create temporary file");
    let e = FormatError::CannotReadFileContents("unexpected end of file".to_string());
    assert_eq!(e.message(), "Unable to read formatted file");
}

#[test]
fn not_utf8_message() {
    assert_eq!(
        FormatError::FormatterOutputNotUTF8.message(),
        "Formatter error output was not valid UTF-8"
    );
}

#[test]
fn success_response_carries_the_body() {
    let resp = response_parts(&Ok("fn main() {}\n".to_string()));
    assert_eq!(resp, (200, "fn main() {}\n".to_string()));
}

#[test]
fn error_response_carries_the_message() {
    let resp = response_parts(&Err(FormatError::FormatterOutputNotUTF8));
    assert_eq!(
        resp,
        (400, "Formatter error output was not valid UTF-8".to_string())
    );
}

#[test]
fn known_language_tags_parse() {
    assert_eq!(Language::from_str("rs"), Ok(Language::Rust));
    assert_eq!(Language::from_str("rust"), Ok(Language::Rust));
    assert_eq!(Language::from_str("php"), Ok(Language::PHP));
    assert_eq!(Language::from_str("js"), Ok(Language::JavaScript));
    assert_eq!(Language::from_str("jsx"), Ok(Language::JavaScript));
    assert_eq!(Language::from_str("ts"), Ok(Language::TypeScript));
    assert_eq!(Language::from_str("tsx"), Ok(Language::TypeScript));
}

#[test]
fn unknown_language_tag_is_refused() {
    assert_eq!(
        Language::from_str("cobol"),
        Err(LanguageParseError::LanguageNotFound)
    );
    assert_eq!(
        Language::from_str("Rust"),
        Err(LanguageParseError::LanguageNotFound)
    );
    assert_eq!(
        Language::from_str(""),
        Err(LanguageParseError::LanguageNotFound)
    );
}
