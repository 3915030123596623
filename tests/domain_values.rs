use zero2prod::domain::{Environment, NewsletterMetadata};

#[test]
fn environment_names() {
    assert_eq!(Environment::Local.as_str(), "local");
    assert_eq!(Environment::Production.as_str(), "production");
}

#[test]
fn environment_parse_ignores_case() {
    assert_eq!(Environment::parse("LOCAL"), Ok(Environment::Local));
    assert_eq!(Environment::parse("Production"), Ok(Environment::Production));
}

#[test]
fn environment_parse_rejects_unknown_names() {
    assert_eq!(
        Environment::parse("Staging"),
        Err("staging is not a support environment. Use either local or production".to_string())
    );
}

#[test]
fn environment_from_lowercase_is_case_sensitive() {
    assert_eq!(Environment::from_lowercase("local"), Ok(Environment::Local));
    assert!(Environment::from_lowercase("Local").is_err());
}

#[test]
fn newsletter_metadata_copies_its_texts() {
    let m = NewsletterMetadata::new("Newsletter title", "Newsletter body as plain text", "<p>Newsletter body as HTML</p>");
    assert_eq!(m.issue_title, "Newsletter title");
    assert_eq!(m.text_content, "Newsletter body as plain text");
    assert_eq!(m.html_content, "<p>Newsletter body as HTML</p>");
}
