use argon2::password_hash::SaltString;
use argon2::{Algorithm, Argon2, Params, PasswordHasher, Version};
use base64::Engine;
use zero2prod::email_client::EmailClient;
use zero2prod::routes::newsletter::{
    basic_authentication, get_confirmed_subscribers, publish_newsletter, AuthError, BodyData,
    Content, PublishError,
};
use zero2prod::store::{Credential, Store, Subscriber, SubscriberStatus};

fn phc_hash(password: &str) -> String {
    let salt = SaltString::generate(&mut rand::thread_rng());
    Argon2::new(
        Algorithm::Argon2id,
        Version::V0x13,
        Params::new(15000, 2, 1, None).unwrap(),
    )
    .hash_password(password.as_bytes(), &salt)
    .unwrap()
    .to_string()
}

fn store_with_user(username: &str, password: &str) -> Store {
    let mut store = Store::new();
    store.users.push(Credential {
        user_id: 7,
        username: username.to_string(),
        password_hash: phc_hash(password),
    });
    store
}

fn confirmed(id: u128, email: &str) -> Subscriber {
    Subscriber {
        id,
        email: email.to_string(),
        name: "someone".to_string(),
        status: SubscriberStatus::Confirmed,
        subscribed_at: 0,
    }
}

fn issue() -> BodyData {
    BodyData {
        title: "Newsletter title".to_string(),
        content: Content {
            html: "<p>Newsletter body as HTML</p>".to_string(),
            text: "Newsletter body as plain text".to_string(),
        },
    }
}

fn auth_header(username: &str, password: &str) -> String {
    format!(
        "Basic {}",
        base64::engine::general_purpose::STANDARD.encode(format!("{}:{}", username, password))
    )
}

#[test]
fn missing_authorization_is_rejected_with_a_challenge() {
    let store = Store::new();
    let mut email_client = EmailClient::new();
    let result = publish_newsletter(&issue(), &store, &mut email_client, None);
    let err = result.err().unwrap();
    assert!(matches!(err, PublishError::AuthError(AuthError::MissingHeader)));
    let response = err.error_response();
    assert_eq!(response.status, 401);
    assert_eq!(response.www_authenticate.as_deref(), Some("Basic realm=\"publish\""));
    assert_eq!(email_client.outbox.len(), 0);
}

#[test]
fn basic_authentication_classifies_each_malformed_header() {
    let cases: Vec<(String, AuthError)> = vec![
        ("Bearer something".to_string(), AuthError::WrongScheme),
        ("basic abc".to_string(), AuthError::WrongScheme),
        ("Basic !!!not-base64!!!".to_string(), AuthError::InvalidBase64),
        (
            format!(
                "Basic {}",
                base64::engine::general_purpose::STANDARD.encode([0xffu8, 0xfe, 0xfd])
            ),
            AuthError::InvalidUtf8,
        ),
        (
            format!(
                "Basic {}",
                base64::engine::general_purpose::STANDARD.encode("user-without-password")
            ),
            AuthError::MissingPassword,
        ),
    ];
    for (header, expected) in cases {
        let got = basic_authentication(Some(&header)).err().unwrap();
        assert_eq!(got, expected, "header {:?}", header);
    }
    assert_eq!(
        basic_authentication(None).err().unwrap(),
        AuthError::MissingHeader
    );
}

#[test]
fn basic_authentication_splits_username_and_password_at_the_first_colon() {
    let header = auth_header("alice", "s3cret:with:colons");
    let credentials = basic_authentication(Some(&header)).unwrap();
    assert_eq!(credentials.username, "alice");
    assert_eq!(credentials.password, "s3cret:with:colons");
}

#[test]
fn valid_credentials_deliver_to_the_confirmed_subscribers() {
    let mut store = store_with_user("publisher", "everythinghastostartsomewhere");
    store.subscriptions.push(confirmed(1, "first@example.com"));
    store.subscriptions.push(Subscriber {
        id: 2,
        email: "pending@example.com".to_string(),
        name: "pending person".to_string(),
        status: SubscriberStatus::PendingConfirmation,
        subscribed_at: 0,
    });
    store.subscriptions.push(confirmed(3, "second@example.com"));
    let mut email_client = EmailClient::new();
    let header = auth_header("publisher", "everythinghastostartsomewhere");
    let response =
        publish_newsletter(&issue(), &store, &mut email_client, Some(&header)).unwrap();
    assert_eq!(response.status, 200);
    assert_eq!(email_client.outbox.len(), 2);
    assert_eq!(email_client.outbox[0].recipient, "first@example.com");
    assert_eq!(email_client.outbox[1].recipient, "second@example.com");
    for message in &email_client.outbox {
        assert_eq!(message.subject, "Newsletter title");
        assert_eq!(message.html_body, "<p>Newsletter body as HTML</p>");
        assert_eq!(message.text_body, "Newsletter body as plain text");
    }
}

#[test]
fn corrupted_stored_email_is_skipped_and_the_rest_are_delivered() {
    let mut store = store_with_user("publisher", "everythinghastostartsomewhere");
    store.subscriptions.push(confirmed(1, "not-an-email"));
    store.subscriptions.push(confirmed(2, "valid@example.com"));
    let mut email_client = EmailClient::new();
    let header = auth_header("publisher", "everythinghastostartsomewhere");
    let response =
        publish_newsletter(&issue(), &store, &mut email_client, Some(&header)).unwrap();
    assert_eq!(response.status, 200);
    assert_eq!(email_client.outbox.len(), 1);
    assert_eq!(email_client.outbox[0].recipient, "valid@example.com");
}

#[test]
fn wrong_password_and_unknown_username_are_indistinguishable() {
    let store = store_with_user("publisher", "everythinghastostartsomewhere");
    let mut email_client = EmailClient::new();

    let wrong_password = auth_header("publisher", "wrong-password");
    let unknown_user = auth_header("nobody", "everythinghastostartsomewhere");

    let first = publish_newsletter(&issue(), &store, &mut email_client, Some(&wrong_password))
        .err()
        .unwrap();
    let second = publish_newsletter(&issue(), &store, &mut email_client, Some(&unknown_user))
        .err()
        .unwrap();
    assert!(matches!(
        first,
        PublishError::AuthError(AuthError::InvalidCredentials)
    ));
    assert!(matches!(
        second,
        PublishError::AuthError(AuthError::InvalidCredentials)
    ));
    let first_response = first.error_response();
    let second_response = second.error_response();
    assert_eq!(first_response.status, second_response.status);
    assert_eq!(first_response.www_authenticate, second_response.www_authenticate);
    assert_eq!(email_client.outbox.len(), 0);
}

#[test]
fn first_transport_failure_aborts_the_remaining_fanout() {
    let mut store = store_with_user("publisher", "everythinghastostartsomewhere");
    store.subscriptions.push(confirmed(1, "first@example.com"));
    store.subscriptions.push(confirmed(2, "unreachable@example.com"));
    store.subscriptions.push(confirmed(3, "third@example.com"));
    let mut email_client = EmailClient::new();
    email_client
        .failing_recipients
        .push("unreachable@example.com".to_string());
    let header = auth_header("publisher", "everythinghastostartsomewhere");
    let result = publish_newsletter(&issue(), &store, &mut email_client, Some(&header));
    match result.err().unwrap() {
        PublishError::UnexpectedError(message) => {
            assert_eq!(
                message,
                "Failed to send newsletter issue to unreachable@example.com"
            );
        }
        other => panic!("expected an unexpected-error, got {:?}", other.error_response().status),
    }
    // Delivery stopped at the failing recipient: only the first went out.
    assert_eq!(email_client.outbox.len(), 1);
    assert_eq!(email_client.outbox[0].recipient, "first@example.com");
}

#[test]
fn listing_confirmed_subscribers_revalidates_stored_emails() {
    let mut store = Store::new();
    store.subscriptions.push(confirmed(1, "good@example.com"));
    store.subscriptions.push(confirmed(2, "not-an-email"));
    store.subscriptions.push(Subscriber {
        id: 3,
        email: "pending@example.com".to_string(),
        name: "pending person".to_string(),
        status: SubscriberStatus::PendingConfirmation,
        subscribed_at: 0,
    });
    let listed = get_confirmed_subscribers(&store);
    assert_eq!(listed.len(), 2);
    assert_eq!(listed[0].as_ref().unwrap().email.as_str(), "good@example.com");
    assert!(listed[1].is_err());
}

#[test]
fn unexpected_errors_map_to_a_bare_500() {
    let err = PublishError::UnexpectedError("storage fell over".to_string());
    let response = err.error_response();
    assert_eq!(response.status, 500);
    assert!(response.www_authenticate.is_none());
}

#[test]
fn a_header_that_is_not_utf8_is_an_authentication_failure() {
    let err = PublishError::AuthError(AuthError::HeaderNotUtf8);
    let response = err.error_response();
    assert_eq!(response.status, 401);
    assert_eq!(response.www_authenticate.as_deref(), Some("Basic realm=\"publish\""));
}
