//! The subscription workflow: validate the submitted form, persist a pending
//! subscriber atomically with a fresh confirmation token, build the
//! confirmation email, and confirm a subscriber by token. Also the mapping of
//! outcomes onto HTTP status codes for the surrounding HTTP surface.
use vstd::prelude::*;
use crate::domain::email_is_valid;
use crate::domain::name_is_valid;
use crate::domain::validate_email;
use crate::domain::validate_name;
use crate::store::has_email;
use crate::store::has_token;
use crate::store::insert_transition;
use crate::store::store_wf;
use crate::store::confirm_transition;
use crate::store::StoreModel;
use crate::store::StoreWriteOutcome;
use crate::store::SubscriptionStore;
use crate::token::generate_token;
use crate::token::token_is_wellformed;

verus! {

/// The subscription form: a display name and an email address, as submitted.
pub struct FormData {
    pub name: String,
    pub email: String,
}

/// The confirmation request's query parameters.
pub struct Parameters {
    pub subscription_token: String,
}

/// Everything that can go wrong with a subscription request.
#[derive(Clone, Copy, PartialEq, Eq, Structural, Debug)]
pub enum SubscribeError {
    /// Malformed name or email; rejected before any side effect.
    InvalidInput,
    /// The email address is already registered; nothing was overwritten.
    DuplicateEmail,
    /// The freshly drawn token was already on record; nothing was inserted.
    TokenCollision,
    /// The token store could not take the write; nothing was inserted.
    PersistenceUnavailable,
    /// The confirmation email could not be dispatched after the subscriber
    /// was persisted.
    NotificationFailure,
}

/// Everything that can go wrong with a confirmation request.
#[derive(Clone, Copy, PartialEq, Eq, Structural, Debug)]
pub enum ConfirmError {
    /// The token is not on record.
    UnknownToken,
}

/// A confirmation email, ready for the notifier to send.
pub struct EmailMessage {
    pub to: String,
    pub subject: String,
    pub html_body: String,
    pub text_body: String,
}

/// The confirmation link: the base callback URL with the token appended as
/// its query parameter.
pub open spec fn confirmation_link_of(base: Seq<char>, token: Seq<char>) -> Seq<char> {
    base + "?subscription_token="@ + token
}

/// The HTML body: a short welcome with the link as its only URL.
pub open spec fn html_body_of(link: Seq<char>) -> Seq<char> {
    "Welcome to our newsletter!<br />Click <a href=\""@ + link
        + "\">here</a> to confirm your subscription."@
}

/// The plain-text body: the same welcome with the identical link as its only
/// URL.
pub open spec fn text_body_of(link: Seq<char>) -> Seq<char> {
    "Welcome to our newsletter!\nVisit "@ + link + " to confirm your subscription."@
}

/// Builds the confirmation link for a token.
pub fn confirmation_link(base_url: &String, token: &String) -> (r: String)
    ensures
        r@ == confirmation_link_of(base_url@, token@),
{
    let mut s = base_url.clone();
    s.append("?subscription_token=");
    s.append(token.as_str());
    s
}

/// Builds the confirmation email: HTML and plain-text bodies that render the
/// character-for-character identical confirmation link.
pub fn build_confirmation_email(recipient: &String, link: &String) -> (m: EmailMessage)
    ensures
        m.to@ == recipient@,
        m.subject@ == "Welcome!"@,
        m.html_body@ == html_body_of(link@),
        m.text_body@ == text_body_of(link@),
{
    let mut html = String::from_str("Welcome to our newsletter!<br />Click <a href=\"");
    html.append(link.as_str());
    html.append("\">here</a> to confirm your subscription.");
    let mut text = String::from_str("Welcome to our newsletter!\nVisit ");
    text.append(link.as_str());
    text.append(" to confirm your subscription.");
    EmailMessage {
        to: recipient.clone(),
        subject: String::from_str("Welcome!"),
        html_body: html,
        text_body: text,
    }
}

/// A subscription request as a transition on the store model, for one given
/// token: validation first (no side effect on failure), then the atomic
/// insert with its distinguishable failures. `None` means accepted.
pub open spec fn subscribe_transition(
    m: StoreModel,
    name: Seq<char>,
    email: Seq<char>,
    subscribed_at: u64,
    token: Seq<char>,
) -> (StoreModel, Option<SubscribeError>) {
    if !(name_is_valid(name) && email_is_valid(email)) {
        (m, Some(SubscribeError::InvalidInput))
    } else {
        let t = insert_transition(m, name, email, subscribed_at, token);
        match t.1 {
            StoreWriteOutcome::Inserted => (t.0, None),
            StoreWriteOutcome::DuplicateEmail => (t.0, Some(SubscribeError::DuplicateEmail)),
            StoreWriteOutcome::DuplicateToken => (t.0, Some(SubscribeError::TokenCollision)),
            StoreWriteOutcome::Unavailable => (t.0, Some(SubscribeError::PersistenceUnavailable)),
        }
    }
}

/// The error of a subscription result, if any.
pub open spec fn subscribe_result_error(
    r: Result<EmailMessage, SubscribeError>,
) -> Option<SubscribeError> {
    match r {
        Ok(_) => None,
        Err(e) => Some(e),
    }
}

/// Handles a subscription request with a caller-supplied token, so that what
/// holds is proved for every token the generator could draw: validates the
/// form, atomically persists the pending subscriber and the token, and
/// returns the confirmation email to dispatch. The store moves exactly by
/// [`subscribe_transition`]; on any error it is unchanged.
pub fn subscribe_with_token(
    store: &mut SubscriptionStore,
    form: &FormData,
    base_url: &String,
    subscribed_at: u64,
    token: &String,
) -> (r: Result<EmailMessage, SubscribeError>)
    ensures
        final(store)@ == subscribe_transition(
            old(store)@,
            form.name@,
            form.email@,
            subscribed_at,
            token@,
        ).0,
        subscribe_result_error(r) == subscribe_transition(
            old(store)@,
            form.name@,
            form.email@,
            subscribed_at,
            token@,
        ).1,
        r matches Ok(m) ==> m.to@ == form.email@ && m.subject@ == "Welcome!"@ && m.html_body@
            == html_body_of(confirmation_link_of(base_url@, token@)) && m.text_body@
            == text_body_of(confirmation_link_of(base_url@, token@)),
        store_wf(old(store)@) && old(store)@.subscribers.len() < u64::MAX ==> store_wf(
            final(store)@,
        ),
{
    proof {
        if store_wf(old(store)@) && old(store)@.subscribers.len() < u64::MAX {
            crate::laws::lemma_subscribe_preserves_wf(
                old(store)@,
                form.name@,
                form.email@,
                subscribed_at,
                token@,
            );
        }
    }
    let name_ok = validate_name(&form.name);
    let email_ok = validate_email(&form.email);
    if !(name_ok && email_ok) {
        return Err(SubscribeError::InvalidInput);
    }
    match store.insert_subscriber_with_token(&form.name, &form.email, subscribed_at, token) {
        StoreWriteOutcome::Inserted => {
            let link = confirmation_link(base_url, token);
            Ok(build_confirmation_email(&form.email, &link))
        },
        StoreWriteOutcome::DuplicateEmail => Err(SubscribeError::DuplicateEmail),
        StoreWriteOutcome::DuplicateToken => Err(SubscribeError::TokenCollision),
        StoreWriteOutcome::Unavailable => Err(SubscribeError::PersistenceUnavailable),
    }
}

/// What an accepted subscription request guarantees, for the token `t` the
/// generator drew: `t` is well-formed and was not on record, the store moved
/// by [`subscribe_transition`] and accepted, and the email carries the link
/// made of `t` in both bodies.
pub open spec fn subscribe_accepted(
    m0: StoreModel,
    m1: StoreModel,
    msg: EmailMessage,
    name: Seq<char>,
    email: Seq<char>,
    subscribed_at: u64,
    base: Seq<char>,
    t: Seq<char>,
) -> bool {
    &&& token_is_wellformed(t)
    &&& !has_token(m0, t)
    &&& subscribe_transition(m0, name, email, subscribed_at, t) == (
    m1,
    None::<SubscribeError>,
    )
    &&& msg.to@ == email
    &&& msg.subject@ == "Welcome!"@
    &&& msg.html_body@ == html_body_of(confirmation_link_of(base, t))
    &&& msg.text_body@ == text_body_of(confirmation_link_of(base, t))
}

/// Handles a subscription request: draws a fresh random token and proceeds
/// as [`subscribe_with_token`]. Every failure leaves the store unchanged;
/// the possible failures are pinned to their causes; acceptance is
/// [`subscribe_accepted`] for the drawn token.
pub fn subscribe(
    store: &mut SubscriptionStore,
    form: &FormData,
    base_url: &String,
    subscribed_at: u64,
) -> (r: Result<EmailMessage, SubscribeError>)
    ensures
        r is Err ==> final(store)@ == old(store)@,
        r == Err::<EmailMessage, SubscribeError>(SubscribeError::InvalidInput) <==> !(
        name_is_valid(form.name@) && email_is_valid(form.email@)),
        name_is_valid(form.name@) && email_is_valid(form.email@) && has_email(
            old(store)@,
            form.email@,
        ) ==> r == Err::<EmailMessage, SubscribeError>(SubscribeError::DuplicateEmail),
        name_is_valid(form.name@) && email_is_valid(form.email@) && !has_email(
            old(store)@,
            form.email@,
        ) && !old(store)@.token_persistence_available ==> r == Err::<
            EmailMessage,
            SubscribeError,
        >(SubscribeError::PersistenceUnavailable),
        name_is_valid(form.name@) && email_is_valid(form.email@) && !has_email(
            old(store)@,
            form.email@,
        ) && old(store)@.token_persistence_available ==> (r is Ok || r == Err::<
            EmailMessage,
            SubscribeError,
        >(SubscribeError::TokenCollision)),
        r == Err::<EmailMessage, SubscribeError>(SubscribeError::TokenCollision) ==> exists|
            t: Seq<char>,
        |
            token_is_wellformed(t) && #[trigger] has_token(old(store)@, t),
        r != Err::<EmailMessage, SubscribeError>(SubscribeError::NotificationFailure),
        store_wf(old(store)@) && old(store)@.subscribers.len() < u64::MAX ==> store_wf(
            final(store)@,
        ),
        r matches Ok(msg) ==> exists|t: Seq<char>|
            #[trigger] subscribe_accepted(
                old(store)@,
                final(store)@,
                msg,
                form.name@,
                form.email@,
                subscribed_at,
                base_url@,
                t,
            ),
{
    let token = generate_token();
    let r = subscribe_with_token(store, form, base_url, subscribed_at, &token);
    proof {
        if r == Err::<EmailMessage, SubscribeError>(SubscribeError::TokenCollision) {
            assert(has_token(old(store)@, token@));
        }
        if r is Ok {
            assert(subscribe_accepted(
                old(store)@,
                final(store)@,
                r->Ok_0,
                form.name@,
                form.email@,
                subscribed_at,
                base_url@,
                token@,
            ));
        }
    }
    r
}

/// Folds the notifier's verdict into the subscription outcome: a dispatched
/// email completes the request; a failed dispatch surfaces as a notification
/// failure, with the pending subscriber left in place.
pub fn complete_subscription(email_dispatched: bool) -> (r: Result<(), SubscribeError>)
    ensures
        r is Ok <==> email_dispatched,
        r is Err ==> r == Err::<(), SubscribeError>(SubscribeError::NotificationFailure),
{
    if email_dispatched {
        Ok(())
    } else {
        Err(SubscribeError::NotificationFailure)
    }
}

/// Confirms a subscription by token: a token on record confirms the
/// subscriber it was issued for, idempotently; an unknown token is a client
/// error and changes nothing. The store moves exactly by
/// [`confirm_transition`].
pub fn confirm(store: &mut SubscriptionStore, params: &Parameters) -> (r: Result<
    (),
    ConfirmError,
>)
    requires
        store_wf(old(store)@),
    ensures
        final(store)@ == confirm_transition(old(store)@, params.subscription_token@).0,
        r is Ok <==> has_token(old(store)@, params.subscription_token@),
        r is Err ==> r == Err::<(), ConfirmError>(ConfirmError::UnknownToken),
        store_wf(final(store)@),
{
    proof {
        crate::laws::lemma_confirm_preserves_wf(old(store)@, params.subscription_token@);
    }
    if store.confirm_token(&params.subscription_token) {
        Ok(())
    } else {
        Err(ConfirmError::UnknownToken)
    }
}

/// HTTP status for a subscription error: invalid input is the client's
/// fault; every store or notifier failure is a server error.
pub open spec fn subscribe_error_status_of(e: SubscribeError) -> u16 {
    if e == SubscribeError::InvalidInput {
        400u16
    } else {
        500u16
    }
}

/// Maps a completed subscription request onto its HTTP status code.
pub fn subscribe_status(r: &Result<(), SubscribeError>) -> (status: u16)
    ensures
        *r is Ok ==> status == 200,
        *r matches Err(e) ==> status == subscribe_error_status_of(e),
{
    match r {
        Ok(_) => 200,
        Err(SubscribeError::InvalidInput) => 400,
        Err(_) => 500,
    }
}

/// Maps a completed confirmation request onto its HTTP status code: an
/// unknown token is a client error.
pub fn confirm_status(r: &Result<(), ConfirmError>) -> (status: u16)
    ensures
        *r is Ok ==> status == 200,
        *r is Err ==> status == 400,
{
    match r {
        Ok(_) => 200,
        Err(ConfirmError::UnknownToken) => 400,
    }
}

} // verus!
