//! The subscription store: subscriber records and their confirmation tokens.
//!
//! The store plays the part of the relational collaborator: it enforces email
//! and token uniqueness, inserts a subscriber and its token atomically (both
//! or neither become visible), and transitions a subscriber to confirmed.
//! Its abstract content is a [`StoreModel`]; every operation's contract is an
//! exact transition on that model.
use vstd::prelude::*;

verus! {

/// Lifecycle of a subscriber: pending after the form is submitted, confirmed
/// once the confirmation link is visited. There is no path back to pending.
#[derive(Clone, Copy, PartialEq, Eq, Structural, Debug)]
pub enum SubscriberStatus {
    PendingConfirmation,
    Confirmed,
}

/// One subscriber record.
#[derive(Debug)]
pub struct Subscriber {
    pub id: u64,
    pub email: String,
    pub name: String,
    pub subscribed_at: u64,
    pub status: SubscriberStatus,
}

/// Abstract form of a subscriber record.
#[verifier::ext_equal]
pub struct SubscriberModel {
    pub id: u64,
    pub email: Seq<char>,
    pub name: Seq<char>,
    pub subscribed_at: u64,
    pub status: SubscriberStatus,
}

impl View for Subscriber {
    type V = SubscriberModel;

    open spec fn view(&self) -> SubscriberModel {
        SubscriberModel {
            id: self.id,
            email: self.email@,
            name: self.name@,
            subscribed_at: self.subscribed_at,
            status: self.status,
        }
    }
}

/// One confirmation token, bound to the subscriber it was issued for.
#[derive(Debug)]
pub struct TokenRecord {
    pub token: String,
    pub subscriber_id: u64,
}

/// Abstract form of a token record.
#[verifier::ext_equal]
pub struct TokenModel {
    pub token: Seq<char>,
    pub subscriber_id: u64,
}

impl View for TokenRecord {
    type V = TokenModel;

    open spec fn view(&self) -> TokenModel {
        TokenModel { token: self.token@, subscriber_id: self.subscriber_id }
    }
}

/// Outcome of the atomic insert: the distinguishable uniqueness violations,
/// an unavailable token store, or success.
#[derive(Clone, Copy, PartialEq, Eq, Structural, Debug)]
pub enum StoreWriteOutcome {
    Inserted,
    DuplicateEmail,
    DuplicateToken,
    Unavailable,
}

/// Abstract content of the store.
#[verifier::ext_equal]
pub struct StoreModel {
    pub subscribers: Seq<SubscriberModel>,
    pub tokens: Seq<TokenModel>,
    pub token_persistence_available: bool,
}

/// Well-formedness of the store content:
/// - a subscriber's id is its position, so ids are unique and stable;
/// - emails are unique across subscribers;
/// - tokens are unique, each references an existing subscriber, and each
///   subscriber holds exactly one token (the atomic insert issues it).
pub open spec fn store_wf(m: StoreModel) -> bool {
    &&& forall|i: int|
        0 <= i < m.subscribers.len() ==> (#[trigger] m.subscribers[i]).id == i as u64
    &&& forall|i: int, j: int|
        0 <= i < m.subscribers.len() && 0 <= j < m.subscribers.len() && i != j ==> (
        #[trigger] m.subscribers[i]).email != (#[trigger] m.subscribers[j]).email
    &&& forall|i: int, j: int|
        0 <= i < m.tokens.len() && 0 <= j < m.tokens.len() && i != j ==> (
        #[trigger] m.tokens[i]).token != (#[trigger] m.tokens[j]).token
    &&& forall|i: int|
        0 <= i < m.tokens.len() ==> ((#[trigger] m.tokens[i]).subscriber_id as nat)
            < m.subscribers.len()
    &&& forall|i: int, j: int|
        0 <= i < m.tokens.len() && 0 <= j < m.tokens.len() && i != j ==> (
        #[trigger] m.tokens[i]).subscriber_id != (#[trigger] m.tokens[j]).subscriber_id
    &&& forall|s: int|
        0 <= s < m.subscribers.len() ==> exists|i: int|
            0 <= i < m.tokens.len() && (#[trigger] m.tokens[i]).subscriber_id == (
            #[trigger] m.subscribers[s]).id
}

/// Some subscriber already uses this email address.
pub open spec fn has_email(m: StoreModel, email: Seq<char>) -> bool {
    exists|i: int| 0 <= i < m.subscribers.len() && (#[trigger] m.subscribers[i]).email == email
}

/// Some token record carries exactly this token.
pub open spec fn has_token(m: StoreModel, token: Seq<char>) -> bool {
    exists|i: int| 0 <= i < m.tokens.len() && (#[trigger] m.tokens[i]).token == token
}

/// The subscriber a token belongs to; meaningful when the token is on record.
pub open spec fn token_owner(m: StoreModel, token: Seq<char>) -> u64 {
    let i = choose|i: int|
        0 <= i < m.tokens.len() && (#[trigger] m.tokens[i]).token == token;
    m.tokens[i].subscriber_id
}

/// A fresh pending subscriber record.
pub open spec fn pending_subscriber(
    id: u64,
    email: Seq<char>,
    name: Seq<char>,
    subscribed_at: u64,
) -> SubscriberModel {
    SubscriberModel {
        id,
        email,
        name,
        subscribed_at,
        status: SubscriberStatus::PendingConfirmation,
    }
}

/// The atomic insert as a transition on the model. Checks run in the order
/// the relational store would hit them: the subscriber insert first (email
/// uniqueness), then the token write (availability, token uniqueness). On
/// any failure the model is unchanged: no partial state is ever visible.
pub open spec fn insert_transition(
    m: StoreModel,
    name: Seq<char>,
    email: Seq<char>,
    subscribed_at: u64,
    token: Seq<char>,
) -> (StoreModel, StoreWriteOutcome) {
    if has_email(m, email) {
        (m, StoreWriteOutcome::DuplicateEmail)
    } else if !m.token_persistence_available {
        (m, StoreWriteOutcome::Unavailable)
    } else if has_token(m, token) {
        (m, StoreWriteOutcome::DuplicateToken)
    } else {
        let id = m.subscribers.len() as u64;
        (
            StoreModel {
                subscribers: m.subscribers.push(
                    pending_subscriber(id, email, name, subscribed_at),
                ),
                tokens: m.tokens.push(TokenModel { token, subscriber_id: id }),
                token_persistence_available: m.token_persistence_available,
            },
            StoreWriteOutcome::Inserted,
        )
    }
}

/// A subscriber record with its status raised to confirmed.
pub open spec fn confirmed(s: SubscriberModel) -> SubscriberModel {
    SubscriberModel { status: SubscriberStatus::Confirmed, ..s }
}

/// Confirmation as a transition on the model: when the token is on record,
/// the subscriber it references becomes confirmed (idempotently); an unknown
/// token changes nothing.
pub open spec fn confirm_transition(m: StoreModel, token: Seq<char>) -> (StoreModel, bool) {
    if has_token(m, token) {
        let sid = token_owner(m, token);
        (
            StoreModel {
                subscribers: m.subscribers.map(
                    |i: int, s: SubscriberModel| if s.id == sid {
                        confirmed(s)
                    } else {
                        s
                    },
                ),
                tokens: m.tokens,
                token_persistence_available: m.token_persistence_available,
            },
            true,
        )
    } else {
        (m, false)
    }
}

/// The durable state: subscriber records and token records, plus a switch
/// that models the token store becoming unavailable (say, a lost column),
/// under which the atomic insert fails without leaving partial state.
pub struct SubscriptionStore {
    subscribers: Vec<Subscriber>,
    tokens: Vec<TokenRecord>,
    token_persistence_available: bool,
}

impl View for SubscriptionStore {
    type V = StoreModel;

    closed spec fn view(&self) -> StoreModel {
        StoreModel {
            subscribers: self.subscribers@.map_values(|s: Subscriber| s@),
            tokens: self.tokens@.map_values(|t: TokenRecord| t@),
            token_persistence_available: self.token_persistence_available,
        }
    }
}

impl SubscriptionStore {
    /// An empty store with token persistence available.
    pub fn new() -> (s: Self)
        ensures
            s@.subscribers == Seq::<SubscriberModel>::empty(),
            s@.tokens == Seq::<TokenModel>::empty(),
            s@.token_persistence_available,
            store_wf(s@),
    {
        let s = SubscriptionStore {
            subscribers: Vec::new(),
            tokens: Vec::new(),
            token_persistence_available: true,
        };
        proof {
            assert(s@.subscribers =~= Seq::<SubscriberModel>::empty());
            assert(s@.tokens =~= Seq::<TokenModel>::empty());
        }
        s
    }

    /// Switches the token store on or off; models the fault where the token
    /// write cannot succeed.
    pub fn set_token_persistence(&mut self, available: bool)
        ensures
            final(self)@ == (StoreModel {
                token_persistence_available: available,
                ..old(self)@
            }),
    {
        self.token_persistence_available = available;
    }

    /// True when some subscriber already registered this email address.
    pub fn contains_email(&self, email: &String) -> (r: bool)
        ensures
            r == has_email(self@, email@),
    {
        let n = self.subscribers.len();
        let mut i: usize = 0;
        while i < n
            invariant
                n == self.subscribers.len(),
                0 <= i <= n,
                forall|j: int| 0 <= j < i ==> (#[trigger] self@.subscribers[j]).email != email@,
            decreases n - i,
        {
            if self.subscribers[i].email == *email {
                assert(self@.subscribers[i as int].email == email@);
                return true;
            }
            i += 1;
        }
        false
    }

    /// True when this exact token is on record.
    pub fn contains_token(&self, token: &String) -> (r: bool)
        ensures
            r == has_token(self@, token@),
    {
        let n = self.tokens.len();
        let mut i: usize = 0;
        while i < n
            invariant
                n == self.tokens.len(),
                0 <= i <= n,
                forall|j: int| 0 <= j < i ==> (#[trigger] self@.tokens[j]).token != token@,
            decreases n - i,
        {
            if self.tokens[i].token == *token {
                assert(self@.tokens[i as int].token == token@);
                return true;
            }
            i += 1;
        }
        false
    }

    /// Atomically inserts a pending subscriber together with its confirmation
    /// token. Exactly [`insert_transition`] on the model: on any failure
    /// nothing becomes visible.
    pub fn insert_subscriber_with_token(
        &mut self,
        name: &String,
        email: &String,
        subscribed_at: u64,
        token: &String,
    ) -> (r: StoreWriteOutcome)
        ensures
            final(self)@ == insert_transition(
                old(self)@,
                name@,
                email@,
                subscribed_at,
                token@,
            ).0,
            r == insert_transition(old(self)@, name@, email@, subscribed_at, token@).1,
    {
        if self.contains_email(email) {
            return StoreWriteOutcome::DuplicateEmail;
        }
        if !self.token_persistence_available {
            return StoreWriteOutcome::Unavailable;
        }
        if self.contains_token(token) {
            return StoreWriteOutcome::DuplicateToken;
        }
        let id = self.subscribers.len() as u64;
        let sub = Subscriber {
            id,
            email: email.clone(),
            name: name.clone(),
            subscribed_at,
            status: SubscriberStatus::PendingConfirmation,
        };
        let tok = TokenRecord { token: token.clone(), subscriber_id: id };
        let ghost before = self@;
        self.subscribers.push(sub);
        self.tokens.push(tok);
        proof {
            let target = insert_transition(before, name@, email@, subscribed_at, token@).0;
            assert(self@.subscribers =~= target.subscribers);
            assert(self@.tokens =~= target.tokens);
            assert(self@ =~= target);
        }
        StoreWriteOutcome::Inserted
    }

    /// Looks a token up and returns the id of the subscriber it belongs to.
    #[verifier::loop_isolation(false)]
    pub fn find_subscriber_by_token(&self, token: &String) -> (r: Option<u64>)
        requires
            store_wf(self@),
        ensures
            r is Some <==> has_token(self@, token@),
            r is Some ==> r->0 == token_owner(self@, token@) && (r->0 as nat)
                < self@.subscribers.len(),
    {
        let n = self.tokens.len();
        let mut i: usize = 0;
        while i < n
            invariant
                n == self.tokens.len(),
                0 <= i <= n,
                forall|j: int| 0 <= j < i ==> (#[trigger] self@.tokens[j]).token != token@,
            decreases n - i,
        {
            if self.tokens[i].token == *token {
                proof {
                    assert(self@.tokens[i as int].token == token@);
                    let j = choose|j: int|
                        0 <= j < self@.tokens.len() && (#[trigger] self@.tokens[j]).token
                            == token@;
                    assert(self@.tokens[j].token == token@);
                    assert(j == i as int);
                }
                return Some(self.tokens[i].subscriber_id);
            }
            i += 1;
        }
        None
    }

    /// Marks every subscriber with this id (under well-formedness: the one
    /// subscriber at that position) as confirmed.
    #[verifier::loop_isolation(false)]
    fn mark_confirmed(&mut self, sid: u64)
        ensures
            final(self)@ == (StoreModel {
                subscribers: old(self)@.subscribers.map(
                    |i: int, s: SubscriberModel|
                        (if s.id == sid {
                            confirmed(s)
                        } else {
                            s
                        }),
                ),
                ..old(self)@
            }),
    {
        let ghost before = self@;
        let n = self.subscribers.len();
        let mut i: usize = 0;
        while i < n
            invariant
                n == self.subscribers.len(),
                0 <= i <= n,
                self.tokens@ == old(self).tokens@,
                self.token_persistence_available == old(self).token_persistence_available,
                self@.subscribers.len() == before.subscribers.len(),
                before == old(self)@,
                forall|k: int|
                    0 <= k < i ==> self@.subscribers[k] == (if before.subscribers[k].id == sid {
                        confirmed(#[trigger] before.subscribers[k])
                    } else {
                        before.subscribers[k]
                    }),
                forall|k: int|
                    i <= k < n ==> #[trigger] self@.subscribers[k] == before.subscribers[k],
            decreases n - i,
        {
            proof {
                assert(self@.subscribers[i as int] == before.subscribers[i as int]);
                assert(self@.subscribers[i as int] == self.subscribers@[i as int]@);
            }
            let ghost pre = self@;
            if self.subscribers[i].id == sid {
                let s = Subscriber {
                    id: self.subscribers[i].id,
                    email: self.subscribers[i].email.clone(),
                    name: self.subscribers[i].name.clone(),
                    subscribed_at: self.subscribers[i].subscribed_at,
                    status: SubscriberStatus::Confirmed,
                };
                assert(s@ == confirmed(before.subscribers[i as int]));
                self.subscribers.set(i, s);
                proof {
                    assert(self@.subscribers =~= pre.subscribers.update(i as int, s@));
                }
            }
            i += 1;
        }
        proof {
            let target = before.subscribers.map(
                |k: int, s: SubscriberModel| if s.id == sid {
                    confirmed(s)
                } else {
                    s
                },
            );
            assert(self@.subscribers =~= target);
            assert(self@ =~= StoreModel { subscribers: target, ..before });
        }
    }

    /// Confirms the subscriber a token belongs to. Exactly
    /// [`confirm_transition`] on the model: an unknown token changes nothing,
    /// a known one confirms its subscriber, idempotently.
    pub fn confirm_token(&mut self, token: &String) -> (found: bool)
        requires
            store_wf(old(self)@),
        ensures
            final(self)@ == confirm_transition(old(self)@, token@).0,
            found == confirm_transition(old(self)@, token@).1,
    {
        match self.find_subscriber_by_token(token) {
            Some(sid) => {
                self.mark_confirmed(sid);
                true
            },
            None => false,
        }
    }

    /// Returns a copy of the subscriber who registered this email address.
    pub fn subscriber_by_email(&self, email: &String) -> (r: Option<Subscriber>)
        ensures
            r is Some <==> has_email(self@, email@),
            r is Some ==> r->0@.email == email@ && exists|i: int|
                0 <= i < self@.subscribers.len() && #[trigger] self@.subscribers[i] == r->0@,
    {
        let n = self.subscribers.len();
        let mut i: usize = 0;
        while i < n
            invariant
                n == self.subscribers.len(),
                0 <= i <= n,
                forall|j: int| 0 <= j < i ==> (#[trigger] self@.subscribers[j]).email != email@,
            decreases n - i,
        {
            if self.subscribers[i].email == *email {
                assert(self@.subscribers[i as int].email == email@);
                let found = Subscriber {
                    id: self.subscribers[i].id,
                    email: self.subscribers[i].email.clone(),
                    name: self.subscribers[i].name.clone(),
                    subscribed_at: self.subscribers[i].subscribed_at,
                    status: self.subscribers[i].status,
                };
                assert(found@ == self@.subscribers[i as int]);
                return Some(found);
            }
            i += 1;
        }
        None
    }

    /// Returns a copy of the subscriber with this id.
    pub fn subscriber_by_id(&self, id: u64) -> (r: Option<Subscriber>)
        requires
            store_wf(self@),
        ensures
            r is Some <==> (id as nat) < self@.subscribers.len(),
            r is Some ==> r->0@ == self@.subscribers[id as int],
    {
        if id < self.subscribers.len() as u64 {
            let idx = id as usize;
            let found = Subscriber {
                id: self.subscribers[idx].id,
                email: self.subscribers[idx].email.clone(),
                name: self.subscribers[idx].name.clone(),
                subscribed_at: self.subscribers[idx].subscribed_at,
                status: self.subscribers[idx].status,
            };
            assert(found@ == self@.subscribers[id as int]);
            Some(found)
        } else {
            None
        }
    }

    /// Number of subscriber records.
    pub fn subscriber_count(&self) -> (n: usize)
        ensures
            n as nat == self@.subscribers.len(),
    {
        self.subscribers.len()
    }

    /// Number of token records.
    pub fn token_count(&self) -> (n: usize)
        ensures
            n as nat == self@.tokens.len(),
    {
        self.tokens.len()
    }
}

} // verus!
