use rust2prod::domain::SubscriberName;

#[test]
fn a_256_grapheme_long_name_is_valid() {
    let name = "\u{152}".repeat(256);
    assert!(SubscriberName::parse(&name).is_ok());
}

#[test]
fn a_name_longer_than_256_graphemes_is_rejected() {
    let name = "\u{152}".repeat(257);
    assert!(SubscriberName::parse(&name).is_err());
}

#[test]
fn whitespace_only_names_are_rejected() {
    let name = " ".to_string();
    assert!(SubscriberName::parse(&name).is_err());
}

#[test]
fn empty_names_are_rejected() {
    let name = "".to_string();
    assert!(SubscriberName::parse(&name).is_err());
}

#[test]
fn names_containing_an_invalid_character_are_rejected() {
    for name in &['/', '(', ')', '"', '<', '>', '\\', '{', '}'] {
        assert!(SubscriberName::parse(&name.to_string()).is_err());
    }
}

#[test]
fn a_valid_name_is_parsed_successfully() {
    let name = "Ursula Le Guin".to_string();
    assert!(SubscriberName::parse(&name).is_ok());
}

#[test]
fn the_length_limit_counts_grapheme_clusters_not_characters() {
    // "e" followed by a combining acute accent is one cluster of two characters.
    let name = "e\u{301}".repeat(256);
    assert_eq!(name.chars().count(), 512);
    assert!(SubscriberName::parse(&name).is_ok());
    let name = "e\u{301}".repeat(257);
    assert!(SubscriberName::parse(&name).is_err());
}

#[test]
fn a_name_of_256_characters_is_never_too_long() {
    let name = "a".repeat(256);
    assert!(SubscriberName::parse(&name).is_ok());
}

#[test]
fn names_of_other_white_space_are_rejected() {
    for name in &["\t", "\n", " \r\n ", "\u{a0}", "\u{3000}", "\u{2003}\u{2029}"] {
        assert!(SubscriberName::parse(name).is_err());
    }
}

#[test]
fn a_name_surrounded_by_white_space_is_kept_as_given() {
    let name = SubscriberName::parse("  Le Guin \t").unwrap();
    assert_eq!(name.inner_ref(), "  Le Guin \t");
}

#[test]
fn a_refused_name_is_named_in_the_error() {
    assert_eq!(
        SubscriberName::parse("a/b").err().unwrap(),
        "a/b is not a valid subscriber name"
    );
    assert_eq!(SubscriberName::parse("").err().unwrap(), " is not a valid subscriber name");
}

#[test]
fn a_forbidden_character_anywhere_is_refused() {
    assert!(SubscriberName::parse("Ursula {Le} Guin").is_err());
    assert!(SubscriberName::parse("}Ursula").is_err());
    assert!(SubscriberName::parse("Ursula\\").is_err());
}

#[test]
fn parse_counted_decides_by_the_given_count() {
    assert!(SubscriberName::parse_counted("Ursula", 256).is_ok());
    assert!(SubscriberName::parse_counted("Ursula", 257).is_err());
}

#[test]
fn the_accessors_give_back_the_parsed_text() {
    let name = SubscriberName::parse("Ursula Le Guin").unwrap();
    assert_eq!(name.inner_ref(), "Ursula Le Guin");
    assert_eq!(name.as_ref(), "Ursula Le Guin");
    assert_eq!(name.to_string(), "Ursula Le Guin");
    assert_eq!(name.inner(), "Ursula Le Guin".to_string());
}

#[test]
fn inner_mut_changes_the_name_in_place() {
    let mut name = SubscriberName::parse("le guin").unwrap();
    name.inner_mut().make_ascii_uppercase();
    assert_eq!(name.inner_ref(), "LE GUIN");
}
