use zero2prod::email_client::EmailClient;
use zero2prod::routes::subscriptions::{subscribe, FormData};
use zero2prod::routes::subscriptions_confirm::{confirm, ConfirmError};
use zero2prod::startup::ApplicationBaseUrl;
use zero2prod::store::{Store, SubscriberStatus};

fn enroll(store: &mut Store) -> String {
    let mut email_client = EmailClient::new();
    subscribe(
        store,
        &mut email_client,
        FormData {
            email: "ursula_le_guin@gmail.com".to_string(),
            name: "le guin".to_string(),
        },
        &ApplicationBaseUrl("http://127.0.0.1".to_string()),
    )
    .unwrap();
    store.subscription_tokens[0].subscription_token.clone()
}

#[test]
fn confirming_with_the_issued_token_succeeds_and_confirms_the_subscriber() {
    let mut store = Store::new();
    let token = enroll(&mut store);
    let response = confirm(&mut store, &token).unwrap();
    assert_eq!(response.status, 200);
    assert_eq!(store.subscriptions.len(), 1);
    assert_eq!(store.subscriptions[0].status, SubscriberStatus::Confirmed);
}

#[test]
fn confirming_an_unknown_token_fails_and_mutates_nothing() {
    let mut store = Store::new();
    enroll(&mut store);
    let before_status = store.subscriptions[0].status;
    let before_tokens = store.subscription_tokens.len();
    let result = confirm(&mut store, &"mmmmmmmmmmmmmmmmmmmmmmmmm".to_string());
    let err = result.err().unwrap();
    assert!(matches!(err, ConfirmError::TokenNotFound));
    assert_eq!(err.status_code(), 400);
    assert_eq!(store.subscriptions[0].status, before_status);
    assert_eq!(store.subscriptions[0].status, SubscriberStatus::PendingConfirmation);
    assert_eq!(store.subscription_tokens.len(), before_tokens);
}

#[test]
fn confirming_twice_is_idempotent() {
    let mut store = Store::new();
    let token = enroll(&mut store);
    assert_eq!(confirm(&mut store, &token).unwrap().status, 200);
    let after_first: Vec<(u128, String, SubscriberStatus)> = store
        .subscriptions
        .iter()
        .map(|s| (s.id, s.email.clone(), s.status))
        .collect();
    assert_eq!(confirm(&mut store, &token).unwrap().status, 200);
    let after_second: Vec<(u128, String, SubscriberStatus)> = store
        .subscriptions
        .iter()
        .map(|s| (s.id, s.email.clone(), s.status))
        .collect();
    assert_eq!(after_first, after_second);
    assert_eq!(store.subscriptions[0].status, SubscriberStatus::Confirmed);
}

#[test]
fn confirming_an_empty_store_reports_token_not_found() {
    let mut store = Store::new();
    let result = confirm(&mut store, &"anything".to_string());
    assert!(matches!(result, Err(ConfirmError::TokenNotFound)));
    assert_eq!(store.subscriptions.len(), 0);
}
