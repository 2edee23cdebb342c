//! Subscriber enrollment: validation, persistence of the subscriber row
//! together with its confirmation token, and the confirmation email.

use crate::domain::{valid_email, valid_name, NewSubscriber};
use crate::email_client::{contains_string, EmailClient, EmailMessage, TransportError};
use crate::routes::HttpResponse;
use crate::startup::ApplicationBaseUrl;
use crate::store::{Store, Subscriber, SubscriberStatus, SubscriptionToken};
use vstd::prelude::*;

verus! {

/// The form fields of a subscription request, still unvalidated.
pub struct FormData {
    pub email: String,
    pub name: String,
}

/// Failures of the subscription flow: bad input, or a lower-level failure
/// wrapped with a description.
#[derive(Debug)]
pub enum SubscriberError {
    ValidationError(String),
    UnexpectedError(String),
}

impl SubscriberError {
    /// The status code the HTTP layer maps each failure to.
    pub fn status_code(&self) -> (c: u16)
        ensures
            self matches SubscriberError::ValidationError(_) ==> c == 400,
            self matches SubscriberError::UnexpectedError(_) ==> c == 500,
    {
        match self {
            SubscriberError::ValidationError(_) => 400,
            SubscriberError::UnexpectedError(_) => 500,
        }
    }
}

/// The rendering of a chain of causes, one per line, each introduced as a
/// cause of the one before.
pub open spec fn causes_text(causes: Seq<String>) -> Seq<char>
    decreases causes.len(),
{
    if causes.len() == 0 {
        Seq::empty()
    } else {
        causes_text(causes.drop_last()) + "Caused by:\n\t"@ + causes.last()@ + "\n"@
    }
}

/// The rendering of an error with its chain of causes: the error itself
/// first, then each underlying cause in order.
pub open spec fn error_chain_text(messages: Seq<String>) -> Seq<char> {
    if messages.len() == 0 {
        Seq::empty()
    } else {
        messages[0]@ + "\n\n"@ + causes_text(messages.subrange(1, messages.len() as int))
    }
}

/// Renders an error and its causal chain for diagnostics: the first entry is
/// the error's own description, the rest are its causes, outermost first.
pub fn error_chain_fmt(messages: &Vec<String>) -> (r: String)
    ensures
        r@ == error_chain_text(messages@),
{
    let mut out = String::new();
    if messages.len() == 0 {
        proof {
            assert(out@ =~= error_chain_text(messages@));
        }
        return out;
    }
    out.append(messages[0].as_str());
    out.append("\n\n");
    let n = messages.len();
    let mut i: usize = 1;
    proof {
        assert(messages@.subrange(1, 1) =~= Seq::<String>::empty());
        assert(out@ =~= messages@[0]@ + "\n\n"@ + causes_text(messages@.subrange(1, 1)));
    }
    while i < n
        invariant
            1 <= i <= n,
            n == messages@.len(),
            out@ == messages@[0]@ + "\n\n"@ + causes_text(messages@.subrange(1, i as int)),
        decreases n - i,
    {
        out.append("Caused by:\n\t");
        out.append(messages[i].as_str());
        out.append("\n");
        proof {
            let pre = messages@.subrange(1, i as int);
            let ext = messages@.subrange(1, i as int + 1);
            assert(ext.drop_last() =~= pre);
            assert(ext.last() == messages@[i as int]);
            assert(out@ =~= messages@[0]@ + "\n\n"@ + causes_text(ext));
        }
        i = i + 1;
    }
    proof {
        assert(messages@.subrange(1, n as int) == messages@.subrange(1, i as int));
    }
    out
}

/// An ASCII letter or digit.
pub open spec fn is_alphanumeric_char(c: char) -> bool {
    (0x30 <= (c as u32) && (c as u32) <= 0x39) || (0x41 <= (c as u32) && (c as u32) <= 0x5A) || (
    0x61 <= (c as u32) && (c as u32) <= 0x7A)
}

/// A well-formed confirmation token: 25 ASCII alphanumeric characters.
pub open spec fn token_wf(t: Seq<char>) -> bool {
    t.len() == 25 && forall|i: int| 0 <= i < t.len() ==> is_alphanumeric_char(#[trigger] t[i])
}

/// Relies on `rand::thread_rng` sampling `rand::distributions::Alphanumeric`,
/// which yields one ASCII alphanumeric character; which one is random, so
/// nothing more is assumed.
#[verifier::external_body]
fn sample_alphanumeric() -> (s: String)
    ensures
        s@.len() == 1,
        is_alphanumeric_char(s@[0]),
{
    let c: char = char::from(rand::Rng::sample(&mut rand::thread_rng(), rand::distributions::Alphanumeric));
    c.to_string()
}

/// A fresh 25-character random alphanumeric confirmation token, drawn from a
/// cryptographically seeded generator.
pub fn generate_subscription_token() -> (t: String)
    ensures
        token_wf(t@),
{
    let mut token = String::new();
    let mut i: usize = 0;
    while i < 25
        invariant
            0 <= i <= 25,
            token@.len() == i as nat,
            forall|j: int| 0 <= j < i ==> is_alphanumeric_char(#[trigger] token@[j]),
        decreases 25 - i,
    {
        let piece = sample_alphanumeric();
        token.append(piece.as_str());
        i = i + 1;
    }
    token
}

/// Relies on `uuid::Uuid::new_v4` for a fresh random subscriber id; nothing
/// is assumed of the value.
#[verifier::external_body]
fn generate_subscriber_id() -> u128 {
    uuid::Uuid::new_v4().as_u128()
}

/// Relies on `chrono::Utc::now` for the enrollment timestamp; nothing is
/// assumed of the value.
#[verifier::external_body]
fn current_timestamp_millis() -> i64 {
    chrono::Utc::now().timestamp_millis()
}

/// Adds the subscriber row for a validated candidate: a freshly generated
/// id, pending status, and the current timestamp. Touches nothing else.
pub fn insert_subscriber(transaction: &mut Store, new_subscriber: &NewSubscriber) -> (subscriber_id:
    u128)
    ensures
        final(transaction).users@ == old(transaction).users@,
        final(transaction).subscription_tokens@ == old(transaction).subscription_tokens@,
        final(transaction).subscriptions@.len() == old(transaction).subscriptions@.len() + 1,
        final(transaction).subscriptions@.subrange(0, old(transaction).subscriptions@.len() as int)
            == old(transaction).subscriptions@,
        final(transaction).subscriptions@.last().id == subscriber_id,
        final(transaction).subscriptions@.last().email@ == new_subscriber.email@,
        final(transaction).subscriptions@.last().name@ == new_subscriber.name@,
        final(transaction).subscriptions@.last().status == SubscriberStatus::PendingConfirmation,
{
    let subscriber_id = generate_subscriber_id();
    let subscribed_at = current_timestamp_millis();
    let row = Subscriber {
        id: subscriber_id,
        email: new_subscriber.email.as_string().clone(),
        name: new_subscriber.name.as_string().clone(),
        status: SubscriberStatus::PendingConfirmation,
        subscribed_at,
    };
    let ghost before = transaction.subscriptions@;
    transaction.subscriptions.push(row);
    proof {
        assert(transaction.subscriptions@.subrange(0, before.len() as int) =~= before);
    }
    subscriber_id
}

/// Adds the confirmation-token row referencing the given subscriber.
/// Touches nothing else.
pub fn store_token(transaction: &mut Store, subscriber_id: u128, subscription_token: &str)
    ensures
        final(transaction).users@ == old(transaction).users@,
        final(transaction).subscriptions@ == old(transaction).subscriptions@,
        final(transaction).subscription_tokens@.len() == old(
            transaction,
        ).subscription_tokens@.len() + 1,
        final(transaction).subscription_tokens@.subrange(
            0,
            old(transaction).subscription_tokens@.len() as int,
        ) == old(transaction).subscription_tokens@,
        final(transaction).subscription_tokens@.last().subscription_token@ == subscription_token@,
        final(transaction).subscription_tokens@.last().subscriber_id == subscriber_id,
{
    let row = SubscriptionToken { subscription_token: subscription_token.to_owned(), subscriber_id };
    let ghost before = transaction.subscription_tokens@;
    transaction.subscription_tokens.push(row);
    proof {
        assert(transaction.subscription_tokens@.subrange(0, before.len() as int) =~= before);
    }
}

/// The confirmation link embedding a token.
pub open spec fn confirmation_link(base_url: Seq<char>, token: Seq<char>) -> Seq<char> {
    base_url + "/subscriptions/confirm?subscription_token="@ + token
}

pub open spec fn confirmation_text_body(link: Seq<char>) -> Seq<char> {
    "Welcome to our newsletter! \n Visit "@ + link + " to confirm your subscription."@
}

pub open spec fn confirmation_html_body(link: Seq<char>) -> Seq<char> {
    "Welcome to our newsletter!<br />Click <a href=\""@ + link
        + "\">here</a> to confirm your subscription."@
}

/// The welcome message for a new subscriber, whose bodies embed the
/// confirmation link for `token`.
pub open spec fn confirmation_message_for(
    m: EmailMessage,
    email: Seq<char>,
    base_url: Seq<char>,
    token: Seq<char>,
) -> bool {
    &&& m.recipient@ == email
    &&& m.subject@ == "Welcome!"@
    &&& m.html_body@ == confirmation_html_body(confirmation_link(base_url, token))
    &&& m.text_body@ == confirmation_text_body(confirmation_link(base_url, token))
}

/// Builds the confirmation link for the stored token and hands the welcome
/// message to the email transport; fails exactly when the transport does.
pub fn send_confirmation_email(
    email_client: &mut EmailClient,
    new_subscriber: NewSubscriber,
    base_url: &str,
    subscription_token: &str,
) -> (r: Result<(), TransportError>)
    ensures
        r is Ok <==> !contains_string(old(email_client).failing_recipients@, new_subscriber.email@),
        final(email_client).failing_recipients@ == old(email_client).failing_recipients@,
        r is Ok ==> final(email_client).outbox@.len() == old(email_client).outbox@.len() + 1
            && final(email_client).outbox@.subrange(0, old(email_client).outbox@.len() as int)
            == old(email_client).outbox@ && confirmation_message_for(
            final(email_client).outbox@.last(),
            new_subscriber.email@,
            base_url@,
            subscription_token@,
        ),
        r is Err ==> final(email_client).outbox@ == old(email_client).outbox@,
{
    let mut confirmation_link = base_url.to_owned();
    confirmation_link.append("/subscriptions/confirm?subscription_token=");
    confirmation_link.append(subscription_token);

    let mut plain_body = String::from_str("Welcome to our newsletter! \n Visit ");
    plain_body.append(confirmation_link.as_str());
    plain_body.append(" to confirm your subscription.");

    let mut html_body = String::from_str("Welcome to our newsletter!<br />Click <a href=\"");
    html_body.append(confirmation_link.as_str());
    html_body.append("\">here</a> to confirm your subscription.");

    email_client.send_email(
        new_subscriber.email.as_string(),
        "Welcome!",
        html_body.as_str(),
        plain_body.as_str(),
    )
}

/// What a successful enrollment persists: one new subscriber row with
/// pending status and the given fields, and one new token row, well formed
/// and referencing that subscriber; the credentials untouched.
pub open spec fn subscription_persisted(
    pre: Store,
    post: Store,
    name: Seq<char>,
    email: Seq<char>,
) -> bool {
    &&& post.users@ == pre.users@
    &&& post.subscriptions@.len() == pre.subscriptions@.len() + 1
    &&& post.subscriptions@.subrange(0, pre.subscriptions@.len() as int) == pre.subscriptions@
    &&& post.subscriptions@.last().email@ == email
    &&& post.subscriptions@.last().name@ == name
    &&& post.subscriptions@.last().status == SubscriberStatus::PendingConfirmation
    &&& post.subscription_tokens@.len() == pre.subscription_tokens@.len() + 1
    &&& post.subscription_tokens@.subrange(0, pre.subscription_tokens@.len() as int)
        == pre.subscription_tokens@
    &&& token_wf(post.subscription_tokens@.last().subscription_token@)
    &&& post.subscription_tokens@.last().subscriber_id == post.subscriptions@.last().id
}

/// Enrollment: validates the form, persists the subscriber and its token
/// together, then sends the confirmation email. Invalid input persists
/// nothing; a transport failure is reported only after the subscriber is
/// already durably persisted.
pub fn subscribe(
    store: &mut Store,
    email_client: &mut EmailClient,
    form: FormData,
    base_url: &ApplicationBaseUrl,
) -> (r: Result<HttpResponse, SubscriberError>)
    ensures
        final(email_client).failing_recipients@ == old(email_client).failing_recipients@,
        r is Ok <==> valid_name(form.name@) && valid_email(form.email@) && !contains_string(
            old(email_client).failing_recipients@,
            form.email@,
        ),
        r matches Ok(resp) ==> resp.status == 200 && resp.www_authenticate is None,
        !(valid_name(form.name@) && valid_email(form.email@)) ==> {
            &&& final(store).subscriptions@ == old(store).subscriptions@
            &&& final(store).subscription_tokens@ == old(store).subscription_tokens@
            &&& final(store).users@ == old(store).users@
            &&& final(email_client).outbox@ == old(email_client).outbox@
            &&& r matches Err(SubscriberError::ValidationError(m)) && (!valid_name(form.name@)
                && m@ == "not a valid subscriber name"@ || valid_name(form.name@) && m@
                == "not a valid email address"@)
        },
        valid_name(form.name@) && valid_email(form.email@) ==> subscription_persisted(
            *old(store),
            *final(store),
            form.name@,
            form.email@,
        ),
        valid_name(form.name@) && valid_email(form.email@) && !contains_string(
            old(email_client).failing_recipients@,
            form.email@,
        ) ==> {
            &&& final(email_client).outbox@.len() == old(email_client).outbox@.len() + 1
            &&& final(email_client).outbox@.subrange(0, old(email_client).outbox@.len() as int)
                == old(email_client).outbox@
            &&& confirmation_message_for(
                final(email_client).outbox@.last(),
                form.email@,
                base_url.0@,
                final(store).subscription_tokens@.last().subscription_token@,
            )
        },
        valid_name(form.name@) && valid_email(form.email@) && contains_string(
            old(email_client).failing_recipients@,
            form.email@,
        ) ==> final(email_client).outbox@ == old(email_client).outbox@ && (r matches Err(
            SubscriberError::UnexpectedError(m),
        ) && m@ == "Failed to send a confirmation email"@),
{
    let new_subscriber = match NewSubscriber::parse(form.name, form.email) {
        Ok(ns) => ns,
        Err(m) => {
            return Err(SubscriberError::ValidationError(m));
        },
    };
    let subscriber_id = insert_subscriber(store, &new_subscriber);
    let subscription_token = generate_subscription_token();
    store_token(store, subscriber_id, subscription_token.as_str());
    match send_confirmation_email(
        email_client,
        new_subscriber,
        base_url.0.as_str(),
        subscription_token.as_str(),
    ) {
        Ok(_) => Ok(HttpResponse::ok()),
        Err(_) => Err(
            SubscriberError::UnexpectedError(
                String::from_str("Failed to send a confirmation email"),
            ),
        ),
    }
}

} // verus!
