//! Token-based confirmation: resolving a confirmation token to its
//! subscriber and transitioning that subscriber's status.

use crate::routes::HttpResponse;
use crate::store::{token_lookup, lemma_token_lookup_first_match, lemma_token_lookup_none, Store, Subscriber, SubscriberStatus};
use vstd::prelude::*;

verus! {

/// The one failure of confirmation: no token row carries the given token.
#[derive(Debug)]
pub enum ConfirmError {
    TokenNotFound,
}

impl ConfirmError {
    /// The status code the HTTP layer maps the failure to.
    pub fn status_code(&self) -> (c: u16)
        ensures
            c == 400,
    {
        400
    }
}

/// The status transition applied when a token resolves to `subscriber_id`:
/// every row with that id becomes confirmed, all other rows are untouched.
/// Applied to an already-confirmed subscriber it changes nothing.
pub open spec fn confirm_transition(subs: Seq<Subscriber>, subscriber_id: u128) -> Seq<Subscriber> {
    subs.map(
        |i: int, s: Subscriber|
            if s.id == subscriber_id {
                Subscriber { status: SubscriberStatus::Confirmed, ..s }
            } else {
                s
            },
    )
}

/// Confirming is idempotent: applying the transition a second time for the
/// same subscriber leaves the rows exactly as after the first time.
pub proof fn lemma_confirm_idempotent(subs: Seq<Subscriber>, subscriber_id: u128)
    ensures
        confirm_transition(confirm_transition(subs, subscriber_id), subscriber_id)
            == confirm_transition(subs, subscriber_id),
{
    assert(confirm_transition(confirm_transition(subs, subscriber_id), subscriber_id)
        =~= confirm_transition(subs, subscriber_id));
}

/// The subscriber id referenced by the first row carrying this token, if
/// any.
pub fn get_subscriber_id_from_token(pool: &Store, subscription_token: &String) -> (r: Option<u128>)
    ensures
        r == token_lookup(pool.subscription_tokens@, subscription_token@),
{
    let n = pool.subscription_tokens.len();
    let mut i: usize = 0;
    while i < n
        invariant
            0 <= i <= n,
            n == pool.subscription_tokens@.len(),
            forall|j: int|
                0 <= j < i ==> #[trigger] pool.subscription_tokens@[j].subscription_token@
                    != subscription_token@,
        decreases n - i,
    {
        if pool.subscription_tokens[i].subscription_token.eq(subscription_token) {
            proof {
                lemma_token_lookup_first_match(
                    pool.subscription_tokens@,
                    subscription_token@,
                    i as int,
                );
            }
            return Some(pool.subscription_tokens[i].subscriber_id);
        }
        i = i + 1;
    }
    proof {
        lemma_token_lookup_none(pool.subscription_tokens@, subscription_token@);
    }
    None
}

/// Marks every subscriber row with this id as confirmed; a no-op on rows
/// already confirmed. Touches nothing else.
pub fn confirm_subscriber(pool: &mut Store, subscriber_id: u128)
    ensures
        final(pool).subscriptions@ == confirm_transition(old(pool).subscriptions@, subscriber_id),
        final(pool).subscription_tokens@ == old(pool).subscription_tokens@,
        final(pool).users@ == old(pool).users@,
{
    let n = pool.subscriptions.len();
    let mut i: usize = 0;
    while i < n
        invariant
            0 <= i <= n,
            n == pool.subscriptions@.len(),
            pool.subscription_tokens@ == old(pool).subscription_tokens@,
            pool.users@ == old(pool).users@,
            pool.subscriptions@.len() == old(pool).subscriptions@.len(),
            forall|j: int|
                0 <= j < i ==> pool.subscriptions@[j] == #[trigger] confirm_transition(
                    old(pool).subscriptions@,
                    subscriber_id,
                )[j],
            forall|j: int|
                i <= j < n ==> #[trigger] pool.subscriptions@[j] == old(pool).subscriptions@[j],
        decreases n - i,
    {
        if pool.subscriptions[i].id == subscriber_id {
            pool.subscriptions[i].status = SubscriberStatus::Confirmed;
        }
        i = i + 1;
    }
    proof {
        assert(pool.subscriptions@ =~= confirm_transition(old(pool).subscriptions@, subscriber_id));
    }
}

/// Confirmation: resolves the token and transitions its subscriber to
/// confirmed. An unknown token changes nothing; a replayed token succeeds
/// again without further effect.
pub fn confirm(pool: &mut Store, subscription_token: &String) -> (r: Result<
    HttpResponse,
    ConfirmError,
>)
    ensures
        r is Ok <==> token_lookup(old(pool).subscription_tokens@, subscription_token@) is Some,
        r matches Ok(resp) ==> resp.status == 200 && resp.www_authenticate is None,
        final(pool).subscription_tokens@ == old(pool).subscription_tokens@,
        final(pool).users@ == old(pool).users@,
        token_lookup(old(pool).subscription_tokens@, subscription_token@) matches Some(sid)
            ==> final(pool).subscriptions@ == confirm_transition(old(pool).subscriptions@, sid),
        token_lookup(old(pool).subscription_tokens@, subscription_token@) is None
            ==> final(pool).subscriptions@ == old(pool).subscriptions@ && r matches Err(
            ConfirmError::TokenNotFound,
        ),
{
    let subscriber_id = match get_subscriber_id_from_token(pool, subscription_token) {
        Some(id) => id,
        None => {
            return Err(ConfirmError::TokenNotFound);
        },
    };
    confirm_subscriber(pool, subscriber_id);
    Ok(HttpResponse::ok())
}

} // verus!
