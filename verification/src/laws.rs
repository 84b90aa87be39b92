//! The workflow's guarantees, stated and proved over the store model: what an
//! accepted subscription stores, what invalid input cannot do, that the store
//! invariants survive every transition, that a confirmed subscriber never
//! falls back to pending, and that confirmation is idempotent.
use vstd::prelude::*;

use crate::domain::email_is_valid;
use crate::domain::grapheme_count_of;
use crate::domain::is_forbidden_name_char;
use crate::domain::is_whitespace_char;
use crate::domain::MAX_NAME_GRAPHEMES;
use crate::store::confirm_transition;
use crate::store::confirmed;
use crate::store::has_email;
use crate::store::has_token;
use crate::store::pending_subscriber;
use crate::store::store_wf;
use crate::store::token_owner;
use crate::store::StoreModel;
use crate::workflow::html_body_of;
use crate::workflow::subscribe_transition;
use crate::workflow::text_body_of;
use crate::workflow::SubscribeError;

verus! {

/// An accepted subscription appends exactly one subscriber: the submitted
/// name and email verbatim, pending confirmation — and a store read by that
/// email can return no other record.
pub proof fn lemma_subscribe_preserves_submission(
    m: StoreModel,
    name: Seq<char>,
    email: Seq<char>,
    subscribed_at: u64,
    token: Seq<char>,
)
    requires
        subscribe_transition(m, name, email, subscribed_at, token).1 is None,
    ensures
        ({
            let m1 = subscribe_transition(m, name, email, subscribed_at, token).0;
            &&& m1.subscribers.len() == m.subscribers.len() + 1
            &&& m1.subscribers.last() == pending_subscriber(
                m.subscribers.len() as u64,
                email,
                name,
                subscribed_at,
            )
            &&& has_email(m1, email)
            &&& forall|i: int|
                0 <= i < m1.subscribers.len() && (#[trigger] m1.subscribers[i]).email == email
                    ==> m1.subscribers[i] == pending_subscriber(
                    m.subscribers.len() as u64,
                    email,
                    name,
                    subscribed_at,
                )
        }),
{
    let m1 = subscribe_transition(m, name, email, subscribed_at, token).0;
    assert(m1.subscribers[m.subscribers.len() as int].email == email);
}

/// Invalid input is rejected before any side effect: an empty email, a name
/// that is empty or all whitespace, a name beyond the grapheme bound, a
/// forbidden character in the name, or an email without a valid address
/// shape each leave the store untouched and return `InvalidInput`.
pub proof fn lemma_invalid_input_rejected(
    m: StoreModel,
    name: Seq<char>,
    email: Seq<char>,
    subscribed_at: u64,
    token: Seq<char>,
)
    ensures
        email.len() == 0 ==> subscribe_transition(m, name, email, subscribed_at, token) == (
        m,
        Some(SubscribeError::InvalidInput),
        ),
        name.len() == 0 ==> subscribe_transition(m, name, email, subscribed_at, token) == (
        m,
        Some(SubscribeError::InvalidInput),
        ),
        (forall|i: int| 0 <= i < name.len() ==> is_whitespace_char(#[trigger] name[i]))
            ==> subscribe_transition(m, name, email, subscribed_at, token) == (
        m,
        Some(SubscribeError::InvalidInput),
        ),
        grapheme_count_of(name) > MAX_NAME_GRAPHEMES ==> subscribe_transition(
            m,
            name,
            email,
            subscribed_at,
            token,
        ) == (m, Some(SubscribeError::InvalidInput)),
        (exists|i: int| 0 <= i < name.len() && is_forbidden_name_char(#[trigger] name[i]))
            ==> subscribe_transition(m, name, email, subscribed_at, token) == (
        m,
        Some(SubscribeError::InvalidInput),
        ),
        !email_is_valid(email) ==> subscribe_transition(m, name, email, subscribed_at, token)
            == (m, Some(SubscribeError::InvalidInput)),
{
    if email.len() == 0 {
        assert(!email_is_valid(email));
    }
}

/// Both bodies of the confirmation email embed the link character for
/// character: the HTML body right after its `href="`, the plain-text body
/// right after its `Visit `; everything around the link is fixed text. The
/// embedded link is the same sequence in both.
pub proof fn lemma_email_bodies_embed_the_link(link: Seq<char>)
    ensures
        ({
            let p = "Welcome to our newsletter!<br />Click <a href=\""@;
            html_body_of(link).subrange(p.len() as int, (p.len() + link.len()) as int) == link
        }),
        ({
            let p = "Welcome to our newsletter!\nVisit "@;
            text_body_of(link).subrange(p.len() as int, (p.len() + link.len()) as int) == link
        }),
{
    let hp = "Welcome to our newsletter!<br />Click <a href=\""@;
    let tp = "Welcome to our newsletter!\nVisit "@;
    assert(html_body_of(link).subrange(hp.len() as int, (hp.len() + link.len()) as int) =~= link);
    assert(text_body_of(link).subrange(tp.len() as int, (tp.len() + link.len()) as int) =~= link);
}

/// An email body pins its link down: two dispatches whose bodies read the
/// same carried the same link, so the token extracted from a confirmation
/// email is unambiguous.
pub proof fn lemma_email_body_determines_the_link(a: Seq<char>, b: Seq<char>)
    ensures
        html_body_of(a) == html_body_of(b) ==> a == b,
        text_body_of(a) == text_body_of(b) ==> a == b,
{
    if html_body_of(a) == html_body_of(b) {
        lemma_email_bodies_embed_the_link(a);
        lemma_email_bodies_embed_the_link(b);
        assert(a =~= b);
    }
    if text_body_of(a) == text_body_of(b) {
        lemma_email_bodies_embed_the_link(a);
        lemma_email_bodies_embed_the_link(b);
        assert(a =~= b);
    }
}

/// A subscription request never rewrites history: every subscriber already
/// on record comes through it untouched, whatever the outcome — in
/// particular, a duplicate-email attempt overwrites nothing.
pub proof fn lemma_subscribe_preserves_existing(
    m: StoreModel,
    name: Seq<char>,
    email: Seq<char>,
    subscribed_at: u64,
    token: Seq<char>,
)
    ensures
        ({
            let m1 = subscribe_transition(m, name, email, subscribed_at, token).0;
            &&& m1.subscribers.len() >= m.subscribers.len()
            &&& forall|i: int|
                0 <= i < m.subscribers.len() ==> #[trigger] m1.subscribers[i]
                    == m.subscribers[i]
            &&& m1.tokens.len() >= m.tokens.len()
            &&& forall|i: int|
                0 <= i < m.tokens.len() ==> #[trigger] m1.tokens[i] == m.tokens[i]
        }),
{
}

/// Confirmation moves statuses in one direction only: a confirmed subscriber
/// stays confirmed, and no transition ever returns one to pending. Together
/// with [`lemma_subscribe_preserves_existing`], a confirmed subscriber stays
/// confirmed under every operation of the workflow.
pub proof fn lemma_confirm_monotonic(m: StoreModel, token: Seq<char>)
    ensures
        ({
            let m1 = confirm_transition(m, token).0;
            &&& m1.subscribers.len() == m.subscribers.len()
            &&& m1.tokens == m.tokens
            &&& forall|i: int|
                0 <= i < m.subscribers.len() ==> (#[trigger] m1.subscribers[i]).status
                    == m.subscribers[i].status || m1.subscribers[i] == confirmed(
                    m.subscribers[i],
                )
            &&& forall|i: int|
                0 <= i < m.subscribers.len() && (#[trigger] m.subscribers[i]).status
                    == crate::store::SubscriberStatus::Confirmed ==> m1.subscribers[i]
                    == m.subscribers[i]
        }),
{
    let m1 = confirm_transition(m, token).0;
    assert forall|i: int|
        0 <= i < m.subscribers.len() && (#[trigger] m.subscribers[i]).status
            == crate::store::SubscriberStatus::Confirmed implies m1.subscribers[i]
        == m.subscribers[i] by {
        if has_token(m, token) {
            assert(m1.subscribers[i] =~= m.subscribers[i]);
        }
    }
}

/// Confirmation is idempotent: once a token has confirmed its subscriber, a
/// second confirmation with the same token succeeds and changes nothing.
pub proof fn lemma_confirm_idempotent(m: StoreModel, token: Seq<char>)
    requires
        has_token(m, token),
    ensures
        confirm_transition(m, token).1,
        confirm_transition(confirm_transition(m, token).0, token) == (
        confirm_transition(m, token).0,
        true,
        ),
{
    let m1 = confirm_transition(m, token).0;
    assert(m1.tokens == m.tokens);
    assert(has_token(m1, token));
    assert(token_owner(m1, token) == token_owner(m, token));
    let m2 = confirm_transition(m1, token).0;
    let sid = token_owner(m, token);
    assert forall|i: int| 0 <= i < m1.subscribers.len() implies #[trigger] m2.subscribers[i]
        == m1.subscribers[i] by {
        assert(m1.subscribers[i] == (if m.subscribers[i].id == sid {
            confirmed(m.subscribers[i])
        } else {
            m.subscribers[i]
        }));
        if m1.subscribers[i].id == sid {
            assert(m2.subscribers[i] =~= m1.subscribers[i]);
        }
    }
    assert(m2.subscribers =~= m1.subscribers);
    assert(m2 =~= m1);
}

/// The store invariants survive a subscription request: ids stay the
/// positions, emails and tokens stay unique, and every subscriber — the new
/// one included — holds exactly one token: the insert left no partial state.
pub proof fn lemma_subscribe_preserves_wf(
    m: StoreModel,
    name: Seq<char>,
    email: Seq<char>,
    subscribed_at: u64,
    token: Seq<char>,
)
    requires
        store_wf(m),
        m.subscribers.len() < u64::MAX,
    ensures
        store_wf(subscribe_transition(m, name, email, subscribed_at, token).0),
{
    let m1 = subscribe_transition(m, name, email, subscribed_at, token).0;
    if subscribe_transition(m, name, email, subscribed_at, token).1 is None {
        let n = m.subscribers.len() as int;
        assert(!has_email(m, email));
        assert(!has_token(m, token));
        assert forall|i: int, j: int|
            0 <= i < m1.subscribers.len() && 0 <= j < m1.subscribers.len() && i != j implies (
        #[trigger] m1.subscribers[i]).email != (#[trigger] m1.subscribers[j]).email by {
            if i < n && j < n {
                assert(m1.subscribers[i] == m.subscribers[i]);
                assert(m1.subscribers[j] == m.subscribers[j]);
            } else if i == n && j < n {
                assert(m1.subscribers[j] == m.subscribers[j]);
                if m.subscribers[j].email == email {
                    assert(has_email(m, email));
                }
            } else if j == n && i < n {
                assert(m1.subscribers[i] == m.subscribers[i]);
                if m.subscribers[i].email == email {
                    assert(has_email(m, email));
                }
            }
        }
        assert forall|i: int, j: int|
            0 <= i < m1.tokens.len() && 0 <= j < m1.tokens.len() && i != j implies (
        #[trigger] m1.tokens[i]).token != (#[trigger] m1.tokens[j]).token by {
            let t = m.tokens.len() as int;
            if i == t && j < t {
                if m.tokens[j].token == token {
                    assert(has_token(m, token));
                }
            } else if j == t && i < t {
                if m.tokens[i].token == token {
                    assert(has_token(m, token));
                }
            }
        }
        assert forall|i: int| 0 <= i < m1.subscribers.len() implies (
        #[trigger] m1.subscribers[i]).id == i as u64 by {
            if i < n {
                assert(m1.subscribers[i] == m.subscribers[i]);
            }
        }
        assert forall|i: int| 0 <= i < m1.tokens.len() implies ((
        #[trigger] m1.tokens[i]).subscriber_id as nat) < m1.subscribers.len() by {
            let t = m.tokens.len() as int;
            if i < t {
                assert(m1.tokens[i] == m.tokens[i]);
            }
        }
        assert forall|i: int, j: int|
            0 <= i < m1.tokens.len() && 0 <= j < m1.tokens.len() && i != j implies (
        #[trigger] m1.tokens[i]).subscriber_id != (#[trigger] m1.tokens[j]).subscriber_id by {
            let t = m.tokens.len() as int;
            if i == t && j < t {
                assert((m.tokens[j].subscriber_id as nat) < m.subscribers.len());
            } else if j == t && i < t {
                assert((m.tokens[i].subscriber_id as nat) < m.subscribers.len());
            }
        }
        assert forall|s: int| 0 <= s < m1.subscribers.len() implies exists|i: int|
            0 <= i < m1.tokens.len() && (#[trigger] m1.tokens[i]).subscriber_id == (
            #[trigger] m1.subscribers[s]).id by {
            if s < n {
                let w = choose|i: int|
                    0 <= i < m.tokens.len() && (#[trigger] m.tokens[i]).subscriber_id
                        == m.subscribers[s].id;
                assert(m1.tokens[w].subscriber_id == m1.subscribers[s].id);
            } else {
                assert(m1.tokens[m.tokens.len() as int].subscriber_id == m1.subscribers[s].id);
            }
        }
    }
}

/// The store invariants survive a confirmation: it changes one status and
/// nothing else.
pub proof fn lemma_confirm_preserves_wf(m: StoreModel, token: Seq<char>)
    requires
        store_wf(m),
    ensures
        store_wf(confirm_transition(m, token).0),
{
    let m1 = confirm_transition(m, token).0;
    assert(m1.subscribers.len() == m.subscribers.len());
    assert forall|i: int| 0 <= i < m1.subscribers.len() implies (
    #[trigger] m1.subscribers[i]).id == m.subscribers[i].id && m1.subscribers[i].email
        == m.subscribers[i].email by {}
    assert forall|s: int| 0 <= s < m1.subscribers.len() implies exists|i: int|
        0 <= i < m1.tokens.len() && (#[trigger] m1.tokens[i]).subscriber_id == (
        #[trigger] m1.subscribers[s]).id by {
        let w = choose|i: int|
            0 <= i < m.tokens.len() && (#[trigger] m.tokens[i]).subscriber_id
                == m.subscribers[s].id;
        assert(m1.tokens[w].subscriber_id == m1.subscribers[s].id);
    }
}

} // verus!
