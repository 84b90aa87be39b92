use zero2prod::health_check;
use zero2prod::store::SubscriberStatus;
use zero2prod::store::SubscriptionStore;
use zero2prod::workflow::complete_subscription;
use zero2prod::workflow::confirm;
use zero2prod::workflow::confirm_status;
use zero2prod::workflow::subscribe;
use zero2prod::workflow::subscribe_status;
use zero2prod::workflow::subscribe_with_token;
use zero2prod::workflow::ConfirmError;
use zero2prod::workflow::EmailMessage;
use zero2prod::workflow::FormData;
use zero2prod::workflow::Parameters;
use zero2prod::workflow::SubscribeError;

const BASE_URL: &str = "https://api.example.com/subscriptions/confirm";
const SUBSCRIBED_AT: u64 = 1_700_000_000;

fn form(name: &str, email: &str) -> FormData {
    FormData { name: name.to_string(), email: email.to_string() }
}

fn count_urls(text: &str) -> usize {
    text.match_indices("http").count()
}

fn url_starting_at(text: &str, from: usize) -> &str {
    let tail = &text[from..];
    let end = tail
        .find(|c: char| c.is_whitespace() || c == '"' || c == '>')
        .unwrap_or(tail.len());
    &tail[..end]
}

fn the_one_url(text: &str) -> &str {
    assert_eq!(count_urls(text), 1);
    url_starting_at(text, text.find("http").unwrap())
}

fn token_of(msg: &EmailMessage) -> String {
    let link = the_one_url(&msg.text_body);
    let marker = "subscription_token=";
    let at = link.find(marker).expect("link without a token");
    link[at + marker.len()..].to_string()
}

#[test]
fn health_check_works() {
    assert_eq!(health_check(), 200);
}

#[test]
fn subscribe_returns_a_200_for_valid_form_data() {
    let mut store = SubscriptionStore::new();
    let form = form("le guin", "ursula_le_guin@gmail.com");
    let outcome = subscribe(&mut store, &form, &BASE_URL.to_string(), SUBSCRIBED_AT);
    assert!(outcome.is_ok());
    // Exactly one email dispatch is attempted; once it succeeds, the request
    // maps to 200.
    let completed = complete_subscription(true);
    assert_eq!(subscribe_status(&completed), 200);
}

#[test]
fn subscribe_persists_the_new_subscriber() {
    let mut store = SubscriptionStore::new();
    let form = form("le guin", "ursula_le_guin@gmail.com");
    subscribe(&mut store, &form, &BASE_URL.to_string(), SUBSCRIBED_AT).unwrap();
    let saved = store
        .subscriber_by_email(&"ursula_le_guin@gmail.com".to_string())
        .expect("Failed to fetch saved subscription.");
    assert_eq!(saved.email, "ursula_le_guin@gmail.com");
    assert_eq!(saved.name, "le guin");
    assert_eq!(saved.subscribed_at, SUBSCRIBED_AT);
    assert_eq!(saved.status, SubscriberStatus::PendingConfirmation);
    assert_eq!(store.subscriber_count(), 1);
    assert_eq!(store.token_count(), 1);
}

#[test]
fn subscribe_returns_a_400_when_name_email_is_invalid() {
    let cases = [
        (form(&"a".repeat(257), "ursula_le_guin@gmail.com"), "name too long"),
        (form("", "ursula_le_guin@gmail.com"), "empty name"),
        (form("U(o){", "definitely-not-an-email"), "name has forbidden characters"),
        (form("ursula", ""), "empty email"),
        (form("ursula", "asdf"), "wrong formatted email"),
        (form("ursula", "@gmail.com"), "email without a local part"),
    ];
    for (form, description) in cases {
        let mut store = SubscriptionStore::new();
        let outcome = subscribe(&mut store, &form, &BASE_URL.to_string(), SUBSCRIBED_AT);
        assert_eq!(
            outcome.as_ref().err(),
            Some(&SubscribeError::InvalidInput),
            "The API did not reject the payload: {}.",
            description
        );
        let completed: Result<(), SubscribeError> = Err(outcome.err().unwrap());
        assert_eq!(subscribe_status(&completed), 400, "{}", description);
        assert_eq!(store.subscriber_count(), 0, "{}", description);
        assert_eq!(store.token_count(), 0, "{}", description);
    }
}

#[test]
fn subscribe_sends_a_confirmation_email_with_a_link() {
    let mut store = SubscriptionStore::new();
    let form = form("le guin", "ursula_le_guin@gmail.com");
    let msg = subscribe(&mut store, &form, &BASE_URL.to_string(), SUBSCRIBED_AT).unwrap();
    assert_eq!(msg.to, "ursula_le_guin@gmail.com");
    assert_eq!(msg.subject, "Welcome!");
    // Both bodies hold exactly one URL, and the two are identical.
    let html_link = the_one_url(&msg.html_body).to_string();
    let text_link = the_one_url(&msg.text_body).to_string();
    assert_eq!(html_link, text_link);
    assert!(html_link.starts_with(&format!("{}?subscription_token=", BASE_URL)));
}

#[test]
fn confirm_with_the_emailed_token_confirms_the_subscriber() {
    let mut store = SubscriptionStore::new();
    let form = form("le guin", "ursula_le_guin@gmail.com");
    let msg = subscribe(&mut store, &form, &BASE_URL.to_string(), SUBSCRIBED_AT).unwrap();
    let token = token_of(&msg);
    let outcome = confirm(&mut store, &Parameters { subscription_token: token });
    assert!(outcome.is_ok());
    assert_eq!(confirm_status(&outcome), 200);
    let saved = store.subscriber_by_email(&"ursula_le_guin@gmail.com".to_string()).unwrap();
    assert_eq!(saved.status, SubscriberStatus::Confirmed);
}

#[test]
fn confirm_twice_with_the_same_token_is_idempotent() {
    let mut store = SubscriptionStore::new();
    let form = form("le guin", "ursula_le_guin@gmail.com");
    let msg = subscribe(&mut store, &form, &BASE_URL.to_string(), SUBSCRIBED_AT).unwrap();
    let params = Parameters { subscription_token: token_of(&msg) };
    assert!(confirm(&mut store, &params).is_ok());
    let again = confirm(&mut store, &params);
    assert!(again.is_ok());
    assert_eq!(confirm_status(&again), 200);
    let saved = store.subscriber_by_email(&"ursula_le_guin@gmail.com".to_string()).unwrap();
    assert_eq!(saved.status, SubscriberStatus::Confirmed);
    assert_eq!(store.subscriber_count(), 1);
    assert_eq!(store.token_count(), 1);
}

#[test]
fn confirm_with_an_unissued_token_is_a_client_error() {
    let mut store = SubscriptionStore::new();
    let form = form("le guin", "ursula_le_guin@gmail.com");
    subscribe(&mut store, &form, &BASE_URL.to_string(), SUBSCRIBED_AT).unwrap();
    // Plausible in shape, never issued.
    let params = Parameters { subscription_token: "A".repeat(25) };
    let outcome = confirm(&mut store, &params);
    assert_eq!(outcome, Err(ConfirmError::UnknownToken));
    assert_eq!(confirm_status(&outcome), 400);
    let saved = store.subscriber_by_email(&"ursula_le_guin@gmail.com".to_string()).unwrap();
    assert_eq!(saved.status, SubscriberStatus::PendingConfirmation);
}

#[test]
fn subscribe_fails_if_there_is_a_fatal_database_error() {
    let mut store = SubscriptionStore::new();
    // The token write cannot succeed; the atomic insert must leave nothing.
    store.set_token_persistence(false);
    let form = form("le guin", "ursula_le_guin@gmail.com");
    let outcome = subscribe(&mut store, &form, &BASE_URL.to_string(), SUBSCRIBED_AT);
    assert_eq!(outcome.as_ref().err(), Some(&SubscribeError::PersistenceUnavailable));
    let completed: Result<(), SubscribeError> = Err(outcome.err().unwrap());
    assert_eq!(subscribe_status(&completed), 500);
    assert_eq!(store.subscriber_count(), 0);
    assert_eq!(store.token_count(), 0);
}

#[test]
fn subscribing_the_same_email_twice_does_not_overwrite() {
    let mut store = SubscriptionStore::new();
    let first = form("le guin", "ursula_le_guin@gmail.com");
    subscribe(&mut store, &first, &BASE_URL.to_string(), SUBSCRIBED_AT).unwrap();
    let second = form("somebody else", "ursula_le_guin@gmail.com");
    let outcome = subscribe(&mut store, &second, &BASE_URL.to_string(), SUBSCRIBED_AT + 5);
    assert_eq!(outcome.as_ref().err(), Some(&SubscribeError::DuplicateEmail));
    let saved = store.subscriber_by_email(&"ursula_le_guin@gmail.com".to_string()).unwrap();
    assert_eq!(saved.name, "le guin");
    assert_eq!(saved.status, SubscriberStatus::PendingConfirmation);
    assert_eq!(store.subscriber_count(), 1);
}

#[test]
fn a_token_collision_is_surfaced_and_nothing_is_inserted() {
    let mut store = SubscriptionStore::new();
    let token = "q1w2e3r4t5y6u7i8o9p0a1s2d".to_string();
    let first = form("le guin", "ursula_le_guin@gmail.com");
    subscribe_with_token(&mut store, &first, &BASE_URL.to_string(), SUBSCRIBED_AT, &token)
        .unwrap();
    let second = form("de Pprog", "pprog@gmail.com");
    let outcome = subscribe_with_token(
        &mut store,
        &second,
        &BASE_URL.to_string(),
        SUBSCRIBED_AT,
        &token,
    );
    assert_eq!(outcome.err(), Some(SubscribeError::TokenCollision));
    assert!(store.subscriber_by_email(&"pprog@gmail.com".to_string()).is_none());
    assert_eq!(store.subscriber_count(), 1);
    assert_eq!(store.token_count(), 1);
}

#[test]
fn a_failed_dispatch_surfaces_as_a_notification_failure() {
    let outcome = complete_subscription(false);
    assert_eq!(outcome, Err(SubscribeError::NotificationFailure));
    assert_eq!(subscribe_status(&outcome), 500);
}

#[test]
fn every_server_side_failure_maps_to_500() {
    for e in [
        SubscribeError::DuplicateEmail,
        SubscribeError::TokenCollision,
        SubscribeError::PersistenceUnavailable,
        SubscribeError::NotificationFailure,
    ] {
        let r: Result<(), SubscribeError> = Err(e);
        assert_eq!(subscribe_status(&r), 500);
    }
    let r: Result<(), SubscribeError> = Err(SubscribeError::InvalidInput);
    assert_eq!(subscribe_status(&r), 400);
    assert_eq!(subscribe_status(&Ok(())), 200);
}
