use zero2prod::domain::{NewSubscriber, SubscriberEmail, SubscriberName};
use zero2prod::email_client::EmailClient;
use zero2prod::routes::subscriptions::{
    error_chain_fmt, generate_subscription_token, subscribe, FormData, SubscriberError,
};
use zero2prod::startup::ApplicationBaseUrl;
use zero2prod::store::{Store, SubscriberStatus};

fn base_url() -> ApplicationBaseUrl {
    ApplicationBaseUrl("https://newsletter.example.com".to_string())
}

fn form(name: &str, email: &str) -> FormData {
    FormData {
        email: email.to_string(),
        name: name.to_string(),
    }
}

#[test]
fn subscribe_persists_one_pending_subscriber_and_one_token() {
    let mut store = Store::new();
    let mut email_client = EmailClient::new();
    let response = subscribe(
        &mut store,
        &mut email_client,
        form("le guin", "ursula_le_guin@gmail.com"),
        &base_url(),
    );
    assert_eq!(response.unwrap().status, 200);
    assert_eq!(store.subscriptions.len(), 1);
    let row = &store.subscriptions[0];
    assert_eq!(row.name, "le guin");
    assert_eq!(row.email, "ursula_le_guin@gmail.com");
    assert_eq!(row.status, SubscriberStatus::PendingConfirmation);
    assert_eq!(store.subscription_tokens.len(), 1);
    let token_row = &store.subscription_tokens[0];
    assert_eq!(token_row.subscriber_id, row.id);
    assert_eq!(token_row.subscription_token.len(), 25);
    assert!(token_row
        .subscription_token
        .chars()
        .all(|c| c.is_ascii_alphanumeric()));
    assert_eq!(store.users.len(), 0);
}

#[test]
fn subscribe_queues_one_confirmation_email_with_the_token_link() {
    let mut store = Store::new();
    let mut email_client = EmailClient::new();
    subscribe(
        &mut store,
        &mut email_client,
        form("le guin", "ursula_le_guin@gmail.com"),
        &base_url(),
    )
    .unwrap();
    assert_eq!(email_client.outbox.len(), 1);
    let message = &email_client.outbox[0];
    let token = &store.subscription_tokens[0].subscription_token;
    let link = format!(
        "https://newsletter.example.com/subscriptions/confirm?subscription_token={}",
        token
    );
    assert_eq!(message.recipient, "ursula_le_guin@gmail.com");
    assert_eq!(message.subject, "Welcome!");
    assert_eq!(
        message.html_body,
        format!(
            "Welcome to our newsletter!<br />Click <a href=\"{}\">here</a> to confirm your subscription.",
            link
        )
    );
    assert_eq!(
        message.text_body,
        format!(
            "Welcome to our newsletter! \n Visit {} to confirm your subscription.",
            link
        )
    );
}

#[test]
fn subscribe_with_empty_name_returns_400_and_persists_nothing() {
    let mut store = Store::new();
    let mut email_client = EmailClient::new();
    let response = subscribe(
        &mut store,
        &mut email_client,
        form("", "ursula_le_guin@gmail.com"),
        &base_url(),
    );
    let err = response.err().unwrap();
    assert_eq!(err.status_code(), 400);
    assert!(matches!(err, SubscriberError::ValidationError(_)));
    assert_eq!(store.subscriptions.len(), 0);
    assert_eq!(store.subscription_tokens.len(), 0);
    assert_eq!(email_client.outbox.len(), 0);
}

#[test]
fn subscribe_rejects_whitespace_only_and_forbidden_names() {
    for name in ["   ", "\t\n", "name/with/slash", "le(guin", "a\"quote", "curly{brace}", "tilde~"] {
        let mut store = Store::new();
        let mut email_client = EmailClient::new();
        let response = subscribe(
            &mut store,
            &mut email_client,
            form(name, "ursula_le_guin@gmail.com"),
            &base_url(),
        );
        assert!(response.is_err(), "name {:?} should be rejected", name);
        assert_eq!(store.subscriptions.len(), 0);
        assert_eq!(store.subscription_tokens.len(), 0);
    }
}

#[test]
fn subscribe_counts_name_length_in_grapheme_clusters() {
    // An "e" with a combining accent is two characters but one grapheme, so
    // 256 of them are exactly at the limit and 257 are past it.
    let at_limit = "e\u{0301}".repeat(256);
    let past_limit = "e\u{0301}".repeat(257);

    let mut store = Store::new();
    let mut email_client = EmailClient::new();
    assert!(subscribe(
        &mut store,
        &mut email_client,
        form(&at_limit, "ursula_le_guin@gmail.com"),
        &base_url(),
    )
    .is_ok());
    assert_eq!(store.subscriptions.len(), 1);

    let mut store = Store::new();
    let mut email_client = EmailClient::new();
    assert!(subscribe(
        &mut store,
        &mut email_client,
        form(&past_limit, "ursula_le_guin@gmail.com"),
        &base_url(),
    )
    .is_err());
    assert_eq!(store.subscriptions.len(), 0);
}

#[test]
fn subscribe_rejects_malformed_emails() {
    for email in ["", "not-an-email", "missing-at.com", "@nolocal.com", "no@dot", "two@@ats.com"] {
        let mut store = Store::new();
        let mut email_client = EmailClient::new();
        let response = subscribe(&mut store, &mut email_client, form("le guin", email), &base_url());
        assert!(response.is_err(), "email {:?} should be rejected", email);
        assert_eq!(store.subscriptions.len(), 0);
        assert_eq!(store.subscription_tokens.len(), 0);
    }
}

#[test]
fn subscribe_reports_delivery_failure_after_persisting() {
    let mut store = Store::new();
    let mut email_client = EmailClient::new();
    email_client
        .failing_recipients
        .push("ursula_le_guin@gmail.com".to_string());
    let response = subscribe(
        &mut store,
        &mut email_client,
        form("le guin", "ursula_le_guin@gmail.com"),
        &base_url(),
    );
    let err = response.err().unwrap();
    assert_eq!(err.status_code(), 500);
    assert!(matches!(err, SubscriberError::UnexpectedError(_)));
    // The subscriber and its token are already durably persisted.
    assert_eq!(store.subscriptions.len(), 1);
    assert_eq!(store.subscription_tokens.len(), 1);
    assert_eq!(email_client.outbox.len(), 0);
}

#[test]
fn two_subscriptions_get_distinct_ids_and_tokens() {
    let mut store = Store::new();
    let mut email_client = EmailClient::new();
    subscribe(
        &mut store,
        &mut email_client,
        form("le guin", "ursula_le_guin@gmail.com"),
        &base_url(),
    )
    .unwrap();
    subscribe(
        &mut store,
        &mut email_client,
        form("bradbury", "ray_bradbury@gmail.com"),
        &base_url(),
    )
    .unwrap();
    assert_eq!(store.subscriptions.len(), 2);
    assert_ne!(store.subscriptions[0].id, store.subscriptions[1].id);
    assert_ne!(
        store.subscription_tokens[0].subscription_token,
        store.subscription_tokens[1].subscription_token
    );
}

#[test]
fn generated_tokens_are_25_alphanumeric_characters() {
    let a = generate_subscription_token();
    let b = generate_subscription_token();
    assert_eq!(a.len(), 25);
    assert!(a.chars().all(|c| c.is_ascii_alphanumeric()));
    assert_ne!(a, b);
}

#[test]
fn name_and_email_validation_accept_and_reject_exactly() {
    assert!(SubscriberName::parse("le guin".to_string()).is_ok());
    assert!(SubscriberName::parse("a".repeat(256)).is_ok());
    assert!(SubscriberName::parse("a".repeat(257)).is_err());
    assert!(SubscriberName::parse("<script>".to_string()).is_err());
    assert!(SubscriberEmail::parse("ursula_le_guin@gmail.com".to_string()).is_ok());
    assert!(SubscriberEmail::parse("not-an-email".to_string()).is_err());
    let parsed = NewSubscriber::parse("le guin".to_string(), "ursula_le_guin@gmail.com".to_string())
        .unwrap();
    assert_eq!(parsed.name.as_str(), "le guin");
    assert_eq!(parsed.email.as_str(), "ursula_le_guin@gmail.com");
    assert_eq!(
        NewSubscriber::parse("".to_string(), "a@b.com".to_string()).err().unwrap(),
        "not a valid subscriber name"
    );
    assert_eq!(
        NewSubscriber::parse("le guin".to_string(), "a@b".to_string()).err().unwrap(),
        "not a valid email address"
    );
}

#[test]
fn error_chain_rendering_walks_the_causes() {
    let messages = vec![
        "Failed to store the confirmation token for a new subscriber.".to_string(),
        "connection reset".to_string(),
        "broken pipe".to_string(),
    ];
    let rendered = error_chain_fmt(&messages);
    assert_eq!(
        rendered,
        "Failed to store the confirmation token for a new subscriber.\n\n\
         Caused by:\n\tconnection reset\n\
         Caused by:\n\tbroken pipe\n"
    );
    assert_eq!(error_chain_fmt(&vec![]), "");
    assert_eq!(error_chain_fmt(&vec!["just this".to_string()]), "just this\n\n");
}
