use filename_refactor::language::Language;

#[test]
fn codes_are_the_two_letter_names() {
    assert_eq!(Language::Ja.code(), "ja");
    assert_eq!(Language::En.code(), "en");
    assert_eq!(Language::Ar.code(), "ar");
    assert_eq!(Language::De.code(), "de");
    assert_eq!(Language::Es.code(), "es");
    assert_eq!(Language::Fr.code(), "fr");
    assert_eq!(Language::It.code(), "it");
    assert_eq!(Language::Pt.code(), "pt");
    assert_eq!(Language::Ru.code(), "ru");
    assert_eq!(Language::Zh.code(), "zh");
}

#[test]
fn to_string_gives_the_code() {
    assert_eq!(Language::Ja.to_string(), "ja");
    assert_eq!(Language::Zh.to_string(), "zh");
}

#[test]
fn from_str_reads_every_code() {
    for language in Language::value_variants() {
        assert_eq!(Language::from_str(language.code()), Ok(language));
    }
}

#[test]
fn from_str_rejects_other_text() {
    assert_eq!(Language::from_str("xx"), Err("Invalid language: xx".to_string()));
    assert_eq!(Language::from_str(""), Err("Invalid language: ".to_string()));
    assert_eq!(Language::from_str("JA"), Err("Invalid language: JA".to_string()));
    assert_eq!(Language::from_str("ja "), Err("Invalid language: ja ".to_string()));
}

#[test]
fn value_variants_lists_all_ten_in_order() {
    assert_eq!(
        Language::value_variants(),
        vec![
            Language::Ja,
            Language::En,
            Language::Ar,
            Language::De,
            Language::Es,
            Language::Fr,
            Language::It,
            Language::Pt,
            Language::Ru,
            Language::Zh,
        ]
    );
}
