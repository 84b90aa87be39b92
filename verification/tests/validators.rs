use zero2prod::domain::validate_email;
use zero2prod::domain::validate_name;

#[test]
fn valid_names_are_accepted() {
    assert!(validate_name(&"le guin".to_string()));
    assert!(validate_name(&"Ursula K. Le Guin-Smith".to_string()));
    assert!(validate_name(&"a".repeat(256)));
}

#[test]
fn empty_name_is_rejected() {
    assert!(!validate_name(&"".to_string()));
}

#[test]
fn whitespace_only_name_is_rejected() {
    assert!(!validate_name(&" ".to_string()));
    assert!(!validate_name(&" \t\n\u{A0}\u{2003} ".to_string()));
}

#[test]
fn name_longer_than_256_graphemes_is_rejected() {
    assert!(!validate_name(&"a".repeat(257)));
}

#[test]
fn name_length_counts_grapheme_clusters_not_chars() {
    // 256 graphemes of two code points each: 512 chars, still acceptable.
    let cluster = "e\u{301}";
    assert_eq!(cluster.chars().count(), 2);
    assert!(validate_name(&cluster.repeat(256)));
    assert!(!validate_name(&cluster.repeat(257)));
}

#[test]
fn names_containing_a_forbidden_character_are_rejected() {
    for c in ['/', '(', ')', '"', '<', '>', '\\', '{', '}'] {
        let name = format!("Ursula {} Le Guin", c);
        assert!(!validate_name(&name), "accepted a name holding {:?}", c);
    }
    assert!(!validate_name(&"U(o){".to_string()));
}

#[test]
fn common_addresses_are_accepted() {
    for email in [
        "ursula_le_guin@gmail.com",
        "pprog@gmail.com",
        "first.last@sub.domain.example.org",
        "user+tag@example.co.uk",
        "UPPER.case-42@Example-Host.COM",
        "x@y",
        "a%b_c@my-host.example",
    ] {
        assert!(validate_email(&email.to_string()), "rejected {:?}", email);
    }
}

#[test]
fn empty_email_is_rejected() {
    assert!(!validate_email(&"".to_string()));
}

#[test]
fn email_without_an_at_is_rejected() {
    assert!(!validate_email(&"definitely-not-an-email".to_string()));
    assert!(!validate_email(&"asdf".to_string()));
    assert!(!validate_email(&"ursula.gmail.com".to_string()));
}

#[test]
fn email_with_more_than_one_at_is_rejected() {
    assert!(!validate_email(&"a@b@c.com".to_string()));
    assert!(!validate_email(&"@@".to_string()));
}

#[test]
fn email_with_an_empty_side_is_rejected() {
    assert!(!validate_email(&"@gmail.com".to_string()));
    assert!(!validate_email(&"ursula@".to_string()));
    assert!(!validate_email(&"@".to_string()));
}

#[test]
fn email_with_stray_dots_is_rejected() {
    assert!(!validate_email(&".ursula@gmail.com".to_string()));
    assert!(!validate_email(&"ursula.@gmail.com".to_string()));
    assert!(!validate_email(&"ur..sula@gmail.com".to_string()));
    assert!(!validate_email(&"ursula@.gmail.com".to_string()));
    assert!(!validate_email(&"ursula@gmail.com.".to_string()));
    assert!(!validate_email(&"ursula@gmail..com".to_string()));
}

#[test]
fn email_with_forbidden_characters_is_rejected() {
    assert!(!validate_email(&"ursula le guin@gmail.com".to_string()));
    assert!(!validate_email(&"ursula@gma il.com".to_string()));
    assert!(!validate_email(&"ursula@gmail_com".to_string()));
}

#[test]
fn overlong_email_is_rejected() {
    let email = format!("{}@example.com", "a".repeat(320));
    assert!(!validate_email(&email));
}
