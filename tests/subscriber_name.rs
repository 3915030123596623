use zero2prod::domain::SubscriberName;

#[test]
fn a_256_long_name_should_pass() {
    let name = "a".repeat(256);
    assert!(SubscriberName::parse(name).is_ok());
}

#[test]
fn empty_string_is_rejected() {
    let name = "".to_string();
    assert!(SubscriberName::parse(name).is_err());
}

#[test]
fn a_name_longer_than_256_graphemes_should_fail() {
    let name = "a".repeat(257);
    assert!(SubscriberName::parse(name).is_err());
}

#[test]
fn white_space_string_is_rejected() {
    let name = " ".to_string();
    assert!(SubscriberName::parse(name).is_err());
}

#[test]
fn include_forbidden_chars_is_rejected() {
    for name in ['/', '(', ')', '"', '<', '>', '\\', '{', '}'] {
        let name = name.to_string();
        assert!(SubscriberName::parse(name).is_err());
    }
}

#[test]
fn a_valid_name_is_kept_as_given() {
    let name = SubscriberName::parse("Ursula Le Guin".to_string()).unwrap();
    assert_eq!(name.inner(), "Ursula Le Guin");
}

#[test]
fn rejection_message_names_the_input() {
    let err = SubscriberName::parse("a/b".to_string()).unwrap_err();
    assert_eq!(err, "a/b is not a valid subscriber name");
}

#[test]
fn grapheme_clusters_not_chars_are_counted() {
    // "e" followed by a combining acute accent is one grapheme of two chars.
    let name = "e\u{301}".repeat(256);
    assert_eq!(name.chars().count(), 512);
    assert!(SubscriberName::parse(name).is_ok());
}

#[test]
fn parse_counted_uses_the_given_count() {
    assert!(SubscriberName::parse_counted("ab".to_string(), 256).is_ok());
    assert!(SubscriberName::parse_counted("ab".to_string(), 257).is_err());
}

#[test]
fn inner_white_space_is_allowed() {
    assert!(SubscriberName::parse(" a ".to_string()).is_ok());
    assert!(SubscriberName::parse("\t\n\u{3000}".to_string()).is_err());
}

#[test]
fn single_char_names_follow_std_white_space() {
    let forbidden = ['/', '(', ')', '"', '<', '>', '\\', '{', '}'];
    for c in (0u32..0x3100).filter_map(char::from_u32) {
        let rejected = SubscriberName::parse(c.to_string()).is_err();
        assert_eq!(rejected, c.is_whitespace() || forbidden.contains(&c), "char {:?}", c);
    }
}
