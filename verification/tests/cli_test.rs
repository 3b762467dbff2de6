use loco_cli::cli::parse_translation;

#[test]
fn parse_translation_splits_at_first_equals() {
    assert_eq!(
        parse_translation("en=Hello"),
        Ok(("en".to_string(), "Hello".to_string()))
    );
    assert_eq!(
        parse_translation("de=a=b"),
        Ok(("de".to_string(), "a=b".to_string()))
    );
    assert_eq!(
        parse_translation("en=Hello world"),
        Ok(("en".to_string(), "Hello world".to_string()))
    );
}

#[test]
fn parse_translation_allows_empty_text() {
    assert_eq!(parse_translation("fr="), Ok(("fr".to_string(), String::new())));
}

#[test]
fn parse_translation_rejects_missing_equals() {
    assert_eq!(
        parse_translation("hello"),
        Err("expected LOCALE=TEXT, got: hello".to_string())
    );
    assert_eq!(
        parse_translation(""),
        Err("expected LOCALE=TEXT, got: ".to_string())
    );
}

#[test]
fn parse_translation_rejects_empty_locale() {
    assert_eq!(
        parse_translation("=Hello"),
        Err("locale cannot be empty".to_string())
    );
}

#[test]
fn parse_translation_round_trip_unicode() {
    assert_eq!(
        parse_translation("ja=こんにちは"),
        Ok(("ja".to_string(), "こんにちは".to_string()))
    );
    assert_eq!(
        parse_translation("de-CH=Hallo E2E"),
        Ok(("de-CH".to_string(), "Hallo E2E".to_string()))
    );
}
