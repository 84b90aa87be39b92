use zero2prod::token::generate_token;
use zero2prod::token::token_from_words;
use zero2prod::token::TOKEN_LEN;
use zero2prod::workflow::confirmation_link;

#[test]
fn token_from_words_spells_the_alphabet_in_order() {
    let words: Vec<u64> = vec![0, 9, 10, 35, 36, 61];
    assert_eq!(token_from_words(&words), "09AZaz");
}

#[test]
fn token_from_words_reduces_words_modulo_the_alphabet() {
    // 62 maps back to '0', 63 to '1', and u64::MAX leaves remainder 15: 'F'.
    let words: Vec<u64> = vec![62, 63, u64::MAX];
    assert_eq!(token_from_words(&words), "01F");
}

#[test]
fn generated_tokens_are_25_alphanumeric_characters() {
    for _ in 0..16 {
        let t = generate_token();
        assert_eq!(t.chars().count(), TOKEN_LEN);
        assert!(t.chars().all(|c| c.is_ascii_alphanumeric()));
    }
}

#[test]
fn generated_tokens_differ_between_draws() {
    // 62^25 values: two equal draws would all but prove a broken source.
    let a = generate_token();
    let b = generate_token();
    assert_ne!(a, b);
}

#[test]
fn confirmation_link_appends_the_token_as_query_parameter() {
    let base = "https://api.example.com/subscriptions/confirm".to_string();
    let token = "q1w2e3r4t5y6u7i8o9p0a1s2d".to_string();
    assert_eq!(
        confirmation_link(&base, &token),
        "https://api.example.com/subscriptions/confirm?subscription_token=q1w2e3r4t5y6u7i8o9p0a1s2d"
    );
}
