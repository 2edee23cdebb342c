//! In-memory model of the transactional storage collaborator: subscriber
//! rows, confirmation-token rows, and pre-existing credentials.

use vstd::prelude::*;

verus! {

/// Lifecycle status of a subscriber. The only transition ever applied is
/// `PendingConfirmation` to `Confirmed`.
#[derive(Clone, Copy, PartialEq, Eq, Structural, Debug)]
pub enum SubscriberStatus {
    PendingConfirmation,
    Confirmed,
}

/// One subscriber row.
pub struct Subscriber {
    pub id: u128,
    pub email: String,
    pub name: String,
    pub status: SubscriberStatus,
    pub subscribed_at: i64,
}

/// One confirmation-token row, referencing exactly one subscriber.
pub struct SubscriptionToken {
    pub subscription_token: String,
    pub subscriber_id: u128,
}

/// One stored credential; pre-existing and read-only to this core.
pub struct Credential {
    pub user_id: u128,
    pub username: String,
    pub password_hash: String,
}

/// The storage collaborator's state. A `&mut Store` plays the part of an
/// exclusively owned transaction handle: each operation states exactly which
/// rows it adds or changes, so either all of an operation's rows appear or
/// none do.
pub struct Store {
    pub subscriptions: Vec<Subscriber>,
    pub subscription_tokens: Vec<SubscriptionToken>,
    pub users: Vec<Credential>,
}

impl Store {
    pub fn new() -> (s: Store)
        ensures
            s.subscriptions@ =~= Seq::<Subscriber>::empty(),
            s.subscription_tokens@ =~= Seq::<SubscriptionToken>::empty(),
            s.users@ =~= Seq::<Credential>::empty(),
    {
        Store { subscriptions: Vec::new(), subscription_tokens: Vec::new(), users: Vec::new() }
    }
}

/// The subscriber id of the first token row whose token matches, if any.
pub open spec fn token_lookup(rows: Seq<SubscriptionToken>, token: Seq<char>) -> Option<u128>
    decreases rows.len(),
{
    if rows.len() == 0 {
        None
    } else if rows[0].subscription_token@ == token {
        Some(rows[0].subscriber_id)
    } else {
        token_lookup(rows.subrange(1, rows.len() as int), token)
    }
}

/// The first credential row whose username matches, if any.
pub open spec fn credential_lookup(rows: Seq<Credential>, username: Seq<char>) -> Option<
    Credential,
>
    decreases rows.len(),
{
    if rows.len() == 0 {
        None
    } else if rows[0].username@ == username {
        Some(rows[0])
    } else {
        credential_lookup(rows.subrange(1, rows.len() as int), username)
    }
}

/// A first-match lookup is decided by the first matching index.
pub proof fn lemma_token_lookup_first_match(
    rows: Seq<SubscriptionToken>,
    token: Seq<char>,
    i: int,
)
    requires
        0 <= i < rows.len(),
        rows[i].subscription_token@ == token,
        forall|j: int| 0 <= j < i ==> #[trigger] rows[j].subscription_token@ != token,
    ensures
        token_lookup(rows, token) == Some(rows[i].subscriber_id),
    decreases i,
{
    if i > 0 {
        lemma_token_lookup_first_match(rows.subrange(1, rows.len() as int), token, i - 1);
    }
}

/// A lookup over rows with no matching token finds nothing.
pub proof fn lemma_token_lookup_none(rows: Seq<SubscriptionToken>, token: Seq<char>)
    requires
        forall|j: int| 0 <= j < rows.len() ==> #[trigger] rows[j].subscription_token@ != token,
    ensures
        token_lookup(rows, token) is None,
    decreases rows.len(),
{
    if rows.len() > 0 {
        lemma_token_lookup_none(rows.subrange(1, rows.len() as int), token);
    }
}

pub proof fn lemma_credential_lookup_first_match(rows: Seq<Credential>, username: Seq<char>, i: int)
    requires
        0 <= i < rows.len(),
        rows[i].username@ == username,
        forall|j: int| 0 <= j < i ==> #[trigger] rows[j].username@ != username,
    ensures
        credential_lookup(rows, username) == Some(rows[i]),
    decreases i,
{
    if i > 0 {
        lemma_credential_lookup_first_match(rows.subrange(1, rows.len() as int), username, i - 1);
    }
}

pub proof fn lemma_credential_lookup_none(rows: Seq<Credential>, username: Seq<char>)
    requires
        forall|j: int| 0 <= j < rows.len() ==> #[trigger] rows[j].username@ != username,
    ensures
        credential_lookup(rows, username) is None,
    decreases rows.len(),
{
    if rows.len() > 0 {
        lemma_credential_lookup_none(rows.subrange(1, rows.len() as int), username);
    }
}

} // verus!
