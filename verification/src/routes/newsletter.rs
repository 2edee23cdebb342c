//! Authenticated newsletter delivery: Basic-auth parsing, timing-safe
//! credential validation, and fan-out of an issue to the confirmed
//! subscribers.

use crate::domain::{valid_email, SubscriberEmail};
use crate::email_client::{contains_string, EmailClient, EmailMessage};
use crate::routes::HttpResponse;
use crate::store::{
    credential_lookup, lemma_credential_lookup_first_match, lemma_credential_lookup_none,
    Credential, Store, Subscriber, SubscriberStatus,
};
use vstd::prelude::*;

verus! {

/// A newsletter issue as submitted by the publisher.
pub struct BodyData {
    pub title: String,
    pub content: Content,
}

pub struct Content {
    pub html: String,
    pub text: String,
}

/// The ways Basic authentication fails before any credential is checked,
/// plus the one rejection that covers both an unknown username and a wrong
/// password.
#[derive(Clone, Copy, PartialEq, Eq, Structural, Debug)]
pub enum AuthError {
    MissingHeader,
    HeaderNotUtf8,
    WrongScheme,
    InvalidBase64,
    InvalidUtf8,
    MissingPassword,
    InvalidCredentials,
}

/// Failures of publishing: an authentication failure, to be presented with
/// a challenge, or an internal failure wrapped with a description.
#[derive(Debug)]
pub enum PublishError {
    AuthError(AuthError),
    UnexpectedError(String),
}

impl PublishError {
    /// The externally observable response for each failure: authentication
    /// failures carry the `Basic` challenge for realm `publish`.
    pub fn error_response(&self) -> (r: HttpResponse)
        ensures
            self matches PublishError::AuthError(_) ==> r.status == 401 && (r.www_authenticate
                matches Some(h) && h@ == "Basic realm=\"publish\""@),
            self matches PublishError::UnexpectedError(_) ==> r.status == 500
                && r.www_authenticate is None,
    {
        match self {
            PublishError::UnexpectedError(_) => HttpResponse { status: 500, www_authenticate: None },
            PublishError::AuthError(_) => HttpResponse {
                status: 401,
                www_authenticate: Some(String::from_str("Basic realm=\"publish\"")),
            },
        }
    }
}

/// Credentials extracted from a Basic authorization header.
pub struct Credentials {
    pub username: String,
    pub password: String,
}

/// What `base64`'s standard-alphabet, padded decoding returns: the decoded
/// bytes, or nothing when the input is not valid base64. A function of its
/// input alone.
pub uninterp spec fn base64_standard_decode(s: Seq<char>) -> Option<Seq<u8>>;

/// Relies on `base64::engine::general_purpose::STANDARD.decode` (standard
/// alphabet, padding required).
#[verifier::external_body]
fn base64_decode(encoded: &str) -> (r: Option<Vec<u8>>)
    ensures
        match r {
            Some(v) => base64_standard_decode(encoded@) == Some(v@),
            None => base64_standard_decode(encoded@) is None,
        },
{
    match base64::Engine::decode(&base64::engine::general_purpose::STANDARD, encoded) {
        Ok(v) => Some(v),
        Err(_) => None,
    }
}

/// What UTF-8 decoding of a byte sequence returns: the decoded characters,
/// or nothing when the bytes are not valid UTF-8. A function of its input
/// alone.
pub uninterp spec fn utf8_decode(bytes: Seq<u8>) -> Option<Seq<char>>;

/// Relies on `String::from_utf8`: succeeds exactly on valid UTF-8 and
/// decodes it.
#[verifier::external_body]
fn bytes_to_string(bytes: Vec<u8>) -> (r: Option<String>)
    ensures
        match r {
            Some(s) => utf8_decode(bytes@) == Some(s@),
            None => utf8_decode(bytes@) is None,
        },
{
    match String::from_utf8(bytes) {
        Ok(s) => Some(s),
        Err(_) => None,
    }
}

/// The position of the first occurrence of `c`, if any.
pub open spec fn first_index_of(s: Seq<char>, c: char) -> Option<int>
    decreases s.len(),
{
    if s.len() == 0 {
        None
    } else if s[0] == c {
        Some(0)
    } else {
        match first_index_of(s.subrange(1, s.len() as int), c) {
            None => None,
            Some(i) => Some(i + 1),
        }
    }
}

proof fn lemma_first_index_of_found(s: Seq<char>, c: char, i: int)
    requires
        0 <= i < s.len(),
        s[i] == c,
        forall|j: int| 0 <= j < i ==> s[j] != c,
    ensures
        first_index_of(s, c) == Some(i),
    decreases i,
{
    if i > 0 {
        lemma_first_index_of_found(s.subrange(1, s.len() as int), c, i - 1);
    }
}

proof fn lemma_first_index_of_none(s: Seq<char>, c: char)
    requires
        forall|j: int| 0 <= j < s.len() ==> s[j] != c,
    ensures
        first_index_of(s, c) is None,
    decreases s.len(),
{
    if s.len() > 0 {
        lemma_first_index_of_none(s.subrange(1, s.len() as int), c);
    }
}

/// What parsing a Basic authorization header yields: the username and
/// password, or the precise reason the header is rejected.
pub open spec fn parse_basic_auth(header: Option<Seq<char>>) -> Result<
    (Seq<char>, Seq<char>),
    AuthError,
> {
    match header {
        None => Err(AuthError::MissingHeader),
        Some(h) => if !(h.len() >= 6 && h.subrange(0, 6) == "Basic "@) {
            Err(AuthError::WrongScheme)
        } else {
            match base64_standard_decode(h.subrange(6, h.len() as int)) {
                None => Err(AuthError::InvalidBase64),
                Some(bytes) => match utf8_decode(bytes) {
                    None => Err(AuthError::InvalidUtf8),
                    Some(decoded) => match first_index_of(decoded, ':') {
                        None => Err(AuthError::MissingPassword),
                        Some(i) => Ok(
                            (decoded.subrange(0, i), decoded.subrange(i + 1, decoded.len() as int)),
                        ),
                    },
                },
            }
        },
    }
}

/// The view of the optional header value.
pub open spec fn header_view(header: Option<&String>) -> Option<Seq<char>> {
    match header {
        None => None,
        Some(h) => Some(h@),
    }
}

/// Parses the `Authorization` header of a publish request: `Basic ` scheme,
/// base64-encoded UTF-8 `username:password`.
pub fn basic_authentication(authorization: Option<&String>) -> (r: Result<Credentials, AuthError>)
    ensures
        match parse_basic_auth(header_view(authorization)) {
            Ok(up) => r matches Ok(c) && c.username@ == up.0 && c.password@ == up.1,
            Err(e) => r matches Err(ae) && ae == e,
        },
{
    let header = match authorization {
        Some(h) => h,
        None => {
            return Err(AuthError::MissingHeader);
        },
    };
    let len = header.as_str().unicode_len();
    if len < 6 {
        return Err(AuthError::WrongScheme);
    }
    let scheme = header.as_str().substring_char(0, 6).to_owned();
    if !scheme.eq(&String::from_str("Basic ")) {
        return Err(AuthError::WrongScheme);
    }
    let encoded_segment = header.as_str().substring_char(6, len);
    let decoded_bytes = match base64_decode(encoded_segment) {
        Some(v) => v,
        None => {
            return Err(AuthError::InvalidBase64);
        },
    };
    let decoded = match bytes_to_string(decoded_bytes) {
        Some(s) => s,
        None => {
            return Err(AuthError::InvalidUtf8);
        },
    };
    let dlen = decoded.as_str().unicode_len();
    match find_colon(decoded.as_str()) {
        Some(i) => {
            let username = decoded.as_str().substring_char(0, i).to_owned();
            let password = decoded.as_str().substring_char(i + 1, dlen).to_owned();
            Ok(Credentials { username, password })
        },
        None => Err(AuthError::MissingPassword),
    }
}

/// What `argon2`'s Argon2id verification of a password candidate against a
/// PHC-formatted hash returns: a match, a mismatch, or nothing when the
/// stored hash cannot even be parsed. A function of its arguments alone.
pub uninterp spec fn argon2_check(phc_hash: Seq<char>, password: Seq<char>) -> Option<bool>;

/// Relies on `argon2::PasswordHash::new` to parse the PHC string and on
/// `argon2::Argon2::verify_password` (Argon2id; the parameters come from the
/// PHC string itself) to check the candidate against it.
#[verifier::external_body]
fn verify_password_hash(expected_password_hash: &str, password_candidate: &str) -> (r: Option<bool>)
    ensures
        r == argon2_check(expected_password_hash@, password_candidate@),
{
    let parsed = match argon2::PasswordHash::new(expected_password_hash) {
        Ok(h) => h,
        Err(_) => return None,
    };
    let argon2 = argon2::Argon2::default();
    match argon2::PasswordVerifier::verify_password(&argon2, password_candidate.as_bytes(), &parsed) {
        Ok(()) => Some(true),
        Err(argon2::password_hash::Error::Password) => Some(false),
        Err(_) => None,
    }
}

/// The fixed PHC-formatted Argon2id hash verified against when the username
/// is unknown, so that an unknown username costs the same verification work
/// as a wrong password. Not tied to any real account.
pub open spec fn fallback_password_hash() -> Seq<char> {
    "$argon2id$v=19$m=15000,t=2,p=1$gZiV/M1gPc22ElAH/Jh1Hw$CWOrkoo7oJBQ/iyh7uJ0LO2aLEfrHwTWllSAxT0zRno"@
}

/// The user id and stored password hash for a username, if one is stored.
pub fn get_stored_credentials(username: &String, pool: &Store) -> (r: Option<(u128, String)>)
    ensures
        match credential_lookup(pool.users@, username@) {
            Some(c) => r matches Some(p) && p.0 == c.user_id && p.1@ == c.password_hash@,
            None => r is None,
        },
{
    let n = pool.users.len();
    let mut i: usize = 0;
    while i < n
        invariant
            0 <= i <= n,
            n == pool.users@.len(),
            forall|j: int| 0 <= j < i ==> #[trigger] pool.users@[j].username@ != username@,
        decreases n - i,
    {
        if pool.users[i].username.eq(username) {
            proof {
                lemma_credential_lookup_first_match(pool.users@, username@, i as int);
            }
            return Some((pool.users[i].user_id, pool.users[i].password_hash.clone()));
        }
        i = i + 1;
    }
    proof {
        lemma_credential_lookup_none(pool.users@, username@);
    }
    None
}

/// The decision credential validation reaches.
#[derive(PartialEq, Eq, Structural)]
pub enum AuthOutcome {
    Authorized(u128),
    Rejected(AuthError),
    UnexpectedFailure,
}

/// What validating parsed credentials against the stored ones decides: the
/// stored user's id on a match; an indistinguishable rejection on a wrong
/// password or an unknown username (the latter after checking the candidate
/// against the fallback hash); an internal failure when the consulted hash
/// cannot be parsed.
pub open spec fn credential_outcome(
    users: Seq<Credential>,
    username: Seq<char>,
    password: Seq<char>,
) -> AuthOutcome {
    match credential_lookup(users, username) {
        Some(cred) => match argon2_check(cred.password_hash@, password) {
            Some(true) => AuthOutcome::Authorized(cred.user_id),
            Some(false) => AuthOutcome::Rejected(AuthError::InvalidCredentials),
            None => AuthOutcome::UnexpectedFailure,
        },
        None => match argon2_check(fallback_password_hash(), password) {
            Some(_) => AuthOutcome::Rejected(AuthError::InvalidCredentials),
            None => AuthOutcome::UnexpectedFailure,
        },
    }
}

/// Timing-safe credential validation: whether or not the username is known,
/// exactly one password verification runs — against the stored hash when the
/// username is known, against the fixed fallback hash otherwise — and the
/// two failure causes are rejected indistinguishably.
pub fn validate_credentials(credentials: &Credentials, pool: &Store) -> (r: Result<
    u128,
    PublishError,
>)
    ensures
        ({
            let out = credential_outcome(pool.users@, credentials.username@, credentials.password@);
            &&& (out matches AuthOutcome::Authorized(uid) ==> (r matches Ok(u) && u == uid))
            &&& (out matches AuthOutcome::Rejected(e) ==> (r matches Err(
                PublishError::AuthError(ae),
            ) && ae == e))
            &&& (out is UnexpectedFailure ==> (r matches Err(PublishError::UnexpectedError(m)) && m@
                == "Failed to parse hash in PHC string format."@))
        }),
{
    let mut user_id: Option<u128> = None;
    let mut expected_password_hash = String::from_str(
        "$argon2id$v=19$m=15000,t=2,p=1$gZiV/M1gPc22ElAH/Jh1Hw$CWOrkoo7oJBQ/iyh7uJ0LO2aLEfrHwTWllSAxT0zRno",
    );
    match get_stored_credentials(&credentials.username, pool) {
        Some((stored_user_id, stored_password_hash)) => {
            user_id = Some(stored_user_id);
            expected_password_hash = stored_password_hash;
        },
        None => {},
    }
    match verify_password_hash(expected_password_hash.as_str(), credentials.password.as_str()) {
        Some(true) => match user_id {
            Some(uid) => Ok(uid),
            None => Err(PublishError::AuthError(AuthError::InvalidCredentials)),
        },
        Some(false) => Err(PublishError::AuthError(AuthError::InvalidCredentials)),
        None => Err(
            PublishError::UnexpectedError(
                String::from_str("Failed to parse hash in PHC string format."),
            ),
        ),
    }
}

/// The position of the first `:`, if any.
fn find_colon(s: &str) -> (r: Option<usize>)
    ensures
        match r {
            Some(i) => first_index_of(s@, ':') == Some(i as int) && i < s@.len(),
            None => first_index_of(s@, ':') is None,
        },
{
    let len = s.unicode_len();
    let mut i: usize = 0;
    while i < len
        invariant
            0 <= i <= len,
            len == s@.len(),
            forall|j: int| 0 <= j < i ==> s@[j] != ':',
        decreases len - i,
    {
        if s.get_char(i) == ':' {
            proof {
                lemma_first_index_of_found(s@, ':', i as int);
            }
            return Some(i);
        }
        i = i + 1;
    }
    proof {
        lemma_first_index_of_none(s@, ':');
    }
    None
}

/// A confirmed subscriber whose stored email still passes validation.
pub struct ConfirmedSubscriber {
    pub email: SubscriberEmail,
}

/// The stored email strings of the confirmed subscriber rows, in row order,
/// whether or not they still pass validation.
pub open spec fn confirmed_emails(subs: Seq<Subscriber>) -> Seq<Seq<char>>
    decreases subs.len(),
{
    if subs.len() == 0 {
        Seq::empty()
    } else {
        confirmed_emails(subs.drop_last()) + if subs.last().status == SubscriberStatus::Confirmed {
            seq![subs.last().email@]
        } else {
            Seq::empty()
        }
    }
}

/// The confirmed stored emails that still pass validation, in order: the
/// recipients a newsletter issue is delivered to.
pub open spec fn valid_emails(emails: Seq<Seq<char>>) -> Seq<Seq<char>>
    decreases emails.len(),
{
    if emails.len() == 0 {
        Seq::empty()
    } else {
        valid_emails(emails.drop_last()) + if valid_email(emails.last()) {
            seq![emails.last()]
        } else {
            Seq::empty()
        }
    }
}

/// Loads every confirmed subscriber row and re-validates its stored email:
/// a row whose email no longer parses is reported as such instead of
/// silently dropped, so the caller can skip it and go on.
pub fn get_confirmed_subscribers(pool: &Store) -> (r: Vec<Result<ConfirmedSubscriber, String>>)
    ensures
        r@.len() == confirmed_emails(pool.subscriptions@).len(),
        forall|i: int|
            #![trigger r@[i]]
            0 <= i < r@.len() ==> {
                &&& (valid_email(confirmed_emails(pool.subscriptions@)[i]) ==> (r@[i] matches Ok(c)
                    && c.email@ == confirmed_emails(pool.subscriptions@)[i]))
                &&& (!valid_email(confirmed_emails(pool.subscriptions@)[i]) ==> (r@[i] matches Err(
                    m,
                ) && m@ == "not a valid email address"@))
            },
{
    let n = pool.subscriptions.len();
    let mut out: Vec<Result<ConfirmedSubscriber, String>> = Vec::new();
    let mut i: usize = 0;
    while i < n
        invariant
            0 <= i <= n,
            n == pool.subscriptions@.len(),
            out@.len() == confirmed_emails(pool.subscriptions@.subrange(0, i as int)).len(),
            forall|j: int|
                #![trigger out@[j]]
                0 <= j < out@.len() ==> {
                    &&& (valid_email(
                        confirmed_emails(pool.subscriptions@.subrange(0, i as int))[j],
                    ) ==> (out@[j] matches Ok(c) && c.email@ == confirmed_emails(
                        pool.subscriptions@.subrange(0, i as int),
                    )[j]))
                    &&& (!valid_email(
                        confirmed_emails(pool.subscriptions@.subrange(0, i as int))[j],
                    ) ==> (out@[j] matches Err(m) && m@ == "not a valid email address"@))
                },
        decreases n - i,
    {
        let ghost pre = pool.subscriptions@.subrange(0, i as int);
        let ghost ext = pool.subscriptions@.subrange(0, i as int + 1);
        proof {
            assert(ext.drop_last() =~= pre);
            assert(ext.last() == pool.subscriptions@[i as int]);
        }
        if pool.subscriptions[i].status == SubscriberStatus::Confirmed {
            proof {
                assert(confirmed_emails(ext) =~= confirmed_emails(pre).push(
                    pool.subscriptions@[i as int].email@,
                ));
            }
            match SubscriberEmail::parse(pool.subscriptions[i].email.clone()) {
                Ok(email) => out.push(Ok(ConfirmedSubscriber { email })),
                Err(m) => out.push(Err(m)),
            }
        } else {
            proof {
                assert(confirmed_emails(ext) =~= confirmed_emails(pre));
            }
        }
        i = i + 1;
    }
    proof {
        assert(pool.subscriptions@.subrange(0, n as int) =~= pool.subscriptions@);
    }
    out
}

/// The position in `recipients` of the first recipient the transport fails
/// for, if any.
pub open spec fn first_failing_index(recipients: Seq<Seq<char>>, failing: Seq<String>) -> Option<
    int,
>
    decreases recipients.len(),
{
    if recipients.len() == 0 {
        None
    } else if contains_string(failing, recipients[0]) {
        Some(0)
    } else {
        match first_failing_index(recipients.subrange(1, recipients.len() as int), failing) {
            None => None,
            Some(i) => Some(i + 1),
        }
    }
}

proof fn lemma_first_failing_found(recipients: Seq<Seq<char>>, failing: Seq<String>, k: int)
    requires
        0 <= k < recipients.len(),
        contains_string(failing, recipients[k]),
        forall|j: int| 0 <= j < k ==> !contains_string(failing, #[trigger] recipients[j]),
    ensures
        first_failing_index(recipients, failing) == Some(k),
    decreases k,
{
    if k > 0 {
        lemma_first_failing_found(recipients.subrange(1, recipients.len() as int), failing, k - 1);
    }
}

proof fn lemma_first_failing_none(recipients: Seq<Seq<char>>, failing: Seq<String>)
    requires
        forall|j: int|
            0 <= j < recipients.len() ==> !contains_string(failing, #[trigger] recipients[j]),
    ensures
        first_failing_index(recipients, failing) is None,
    decreases recipients.len(),
{
    if recipients.len() > 0 {
        lemma_first_failing_none(recipients.subrange(1, recipients.len() as int), failing);
    }
}

/// A prefix of the rows yields a prefix of the deliverable recipients.
proof fn lemma_valid_emails_prefix(emails: Seq<Seq<char>>, i: int)
    requires
        0 <= i <= emails.len(),
    ensures
        valid_emails(emails.subrange(0, i)).len() <= valid_emails(emails).len(),
        valid_emails(emails).subrange(0, valid_emails(emails.subrange(0, i)).len() as int)
            == valid_emails(emails.subrange(0, i)),
    decreases emails.len() - i,
{
    if i == emails.len() {
        assert(emails.subrange(0, i) =~= emails);
        assert(valid_emails(emails).subrange(0, valid_emails(emails).len() as int) =~= valid_emails(
            emails,
        ));
    } else {
        lemma_valid_emails_prefix(emails, i + 1);
        let pre = emails.subrange(0, i);
        let ext = emails.subrange(0, i + 1);
        assert(ext.drop_last() =~= pre);
        let vp = valid_emails(pre);
        let vx = valid_emails(ext);
        assert(vx.subrange(0, vp.len() as int) =~= vp);
        assert(valid_emails(emails).subrange(0, vp.len() as int) =~= vp) by {
            assert(valid_emails(emails).subrange(0, vx.len() as int) == vx);
            assert(forall|m: int|
                0 <= m < vp.len() ==> valid_emails(emails)[m] == #[trigger] vx[m]);
        }
    }
}

/// One issue message as handed to the transport for one recipient.
pub open spec fn issue_message_for(
    m: EmailMessage,
    recipient: Seq<char>,
    title: Seq<char>,
    html: Seq<char>,
    text: Seq<char>,
) -> bool {
    &&& m.recipient@ == recipient
    &&& m.subject@ == title
    &&& m.html_body@ == html
    &&& m.text_body@ == text
}

/// The outbox grew by exactly one issue message per recipient in `sent`, in
/// order, with everything queued before left in place.
pub open spec fn outbox_extended_with(
    pre: Seq<EmailMessage>,
    post: Seq<EmailMessage>,
    sent: Seq<Seq<char>>,
    title: Seq<char>,
    html: Seq<char>,
    text: Seq<char>,
) -> bool {
    &&& post.len() == pre.len() + sent.len()
    &&& post.subrange(0, pre.len() as int) == pre
    &&& forall|j: int|
        0 <= j < sent.len() ==> issue_message_for(
            post[pre.len() + j],
            #[trigger] sent[j],
            title,
            html,
            text,
        )
}

/// What authenticating a publish request decides, from the header and the
/// stored credentials alone.
pub open spec fn publish_auth_outcome(
    header: Option<Seq<char>>,
    users: Seq<Credential>,
) -> AuthOutcome {
    match parse_basic_auth(header) {
        Err(e) => AuthOutcome::Rejected(e),
        Ok(up) => credential_outcome(users, up.0, up.1),
    }
}

/// Publishing: gates on credential validation, then attempts one delivery
/// per confirmed subscriber whose stored email still validates, skipping the
/// rows that do not. The first transport failure aborts the remaining
/// fan-out and is reported with the recipient it failed for.
pub fn publish_newsletter(
    body: &BodyData,
    pool: &Store,
    email_client: &mut EmailClient,
    authorization: Option<&String>,
) -> (r: Result<HttpResponse, PublishError>)
    ensures
        final(email_client).failing_recipients@ == old(email_client).failing_recipients@,
        ({
            let auth = publish_auth_outcome(header_view(authorization), pool.users@);
            let recipients = valid_emails(confirmed_emails(pool.subscriptions@));
            let failing = old(email_client).failing_recipients@;
            &&& (auth matches AuthOutcome::Rejected(e) ==> (r matches Err(
                PublishError::AuthError(ae),
            ) && ae == e && final(email_client).outbox@ == old(email_client).outbox@))
            &&& (auth is UnexpectedFailure ==> (r matches Err(PublishError::UnexpectedError(m))
                && m@ == "Failed to parse hash in PHC string format."@
                && final(email_client).outbox@ == old(email_client).outbox@))
            &&& (auth is Authorized ==> match first_failing_index(recipients, failing) {
                None => {
                    &&& (r matches Ok(resp) && resp.status == 200 && resp.www_authenticate is None)
                    &&& outbox_extended_with(
                        old(email_client).outbox@,
                        final(email_client).outbox@,
                        recipients,
                        body.title@,
                        body.content.html@,
                        body.content.text@,
                    )
                },
                Some(k) => {
                    &&& (r matches Err(PublishError::UnexpectedError(m)) && m@
                        == "Failed to send newsletter issue to "@ + recipients[k])
                    &&& outbox_extended_with(
                        old(email_client).outbox@,
                        final(email_client).outbox@,
                        recipients.subrange(0, k),
                        body.title@,
                        body.content.html@,
                        body.content.text@,
                    )
                },
            })
        }),
{
    let credentials = match basic_authentication(authorization) {
        Ok(c) => c,
        Err(e) => {
            return Err(PublishError::AuthError(e));
        },
    };
    let _user_id = match validate_credentials(&credentials, pool) {
        Ok(u) => u,
        Err(e) => {
            return Err(e);
        },
    };
    let subscribers = get_confirmed_subscribers(pool);
    let ghost ce = confirmed_emails(pool.subscriptions@);
    let ghost recipients = valid_emails(ce);
    let ghost failing = email_client.failing_recipients@;
    let ghost out0 = email_client.outbox@;
    let n = subscribers.len();
    let mut i: usize = 0;
    proof {
        assert(ce.subrange(0, 0) =~= Seq::<Seq<char>>::empty());
        assert(email_client.outbox@.subrange(0, out0.len() as int) =~= out0);
        assert(publish_auth_outcome(header_view(authorization), pool.users@) is Authorized);
    }
    while i < n
        invariant
            0 <= i <= n,
            n == subscribers@.len(),
            n == ce.len(),
            ce == confirmed_emails(pool.subscriptions@),
            recipients == valid_emails(ce),
            failing == old(email_client).failing_recipients@,
            out0 == old(email_client).outbox@,
            email_client.failing_recipients@ == failing,
            publish_auth_outcome(header_view(authorization), pool.users@) is Authorized,
            forall|j: int|
                #![trigger subscribers@[j]]
                0 <= j < n ==> {
                    &&& (valid_email(ce[j]) ==> (subscribers@[j] matches Ok(c) && c.email@
                        == ce[j]))
                    &&& (!valid_email(ce[j]) ==> subscribers@[j] is Err)
                },
            outbox_extended_with(
                out0,
                email_client.outbox@,
                valid_emails(ce.subrange(0, i as int)),
                body.title@,
                body.content.html@,
                body.content.text@,
            ),
            forall|j: int|
                0 <= j < valid_emails(ce.subrange(0, i as int)).len() ==> !contains_string(
                    failing,
                    #[trigger] valid_emails(ce.subrange(0, i as int))[j],
                ),
        decreases n - i,
    {
        let ghost pre = ce.subrange(0, i as int);
        let ghost ext = ce.subrange(0, i as int + 1);
        proof {
            assert(ext.drop_last() =~= pre);
            assert(ext.last() == ce[i as int]);
        }
        let entry = &subscribers[i];
        match entry {
            Ok(subscriber) => {
                proof {
                    assert(valid_email(ce[i as int]));
                    assert(valid_emails(ext) =~= valid_emails(pre).push(ce[i as int]));
                }
                match email_client.send_email(
                    subscriber.email.as_string(),
                    body.title.as_str(),
                    body.content.html.as_str(),
                    body.content.text.as_str(),
                ) {
                    Ok(_) => {
                        proof {
                            assert(email_client.outbox@.subrange(0, out0.len() as int) =~= out0);
                        }
                    },
                    Err(te) => {
                        proof {
                            lemma_valid_emails_prefix(ce, i as int + 1);
                            lemma_valid_emails_prefix(ce, i as int);
                            let k = valid_emails(pre).len() as int;
                            assert(valid_emails(ext) == valid_emails(pre).push(ce[i as int]));
                            assert(valid_emails(ext).len() == k + 1);
                            assert(valid_emails(ext)[k] == ce[i as int]);
                            assert(recipients.subrange(0, k + 1) == valid_emails(ext));
                            assert(recipients[k] == recipients.subrange(0, k + 1)[k]);
                            assert(recipients[k] == ce[i as int]);
                            assert(recipients.subrange(0, k) == valid_emails(pre));
                            assert(forall|j: int|
                                0 <= j < k ==> #[trigger] recipients[j] == recipients.subrange(
                                    0,
                                    k,
                                )[j]);
                            lemma_first_failing_found(recipients, failing, k);
                        }
                        let mut m = String::from_str("Failed to send newsletter issue to ");
                        m.append(te.recipient.as_str());
                        return Err(PublishError::UnexpectedError(m));
                    },
                }
            },
            Err(_) => {
                proof {
                    assert(!valid_email(ce[i as int]));
                    assert(valid_emails(ext) =~= valid_emails(pre));
                }
            },
        }
        i = i + 1;
    }
    proof {
        assert(ce.subrange(0, n as int) =~= ce);
        lemma_first_failing_none(recipients, failing);
    }
    Ok(HttpResponse::ok())
}

} // verus!
