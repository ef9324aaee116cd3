use zero2prod::email_client::TransportOutcome;
use zero2prod::pipeline::{Action, FailureKind, Signup, SignupError, Stage, StorageError};
use zero2prod::domain::ValidationError;

const BASE_URL: &str = "http://127.0.0.1:8000";

fn some(s: &str) -> Option<String> {
    Some(s.to_string())
}

/// Drives a valid signup up to the point where the email is to be sent.
fn signup_until_email(name: &str, email: &str) -> (Signup, Action) {
    let (mut signup, action) = Signup::start(some(name), some(email), BASE_URL.to_string());
    assert!(matches!(action, Action::InsertSubscriber { .. }));
    let action = signup.record_storage_outcome(Ok(()));
    assert!(matches!(action, Action::StoreToken { .. }));
    let action = signup.record_storage_outcome(Ok(()));
    assert!(matches!(action, Action::Commit));
    let action = signup.record_storage_outcome(Ok(()));
    (signup, action)
}

fn links_in(body: &str) -> Vec<String> {
    body.split(|c: char| c.is_whitespace() || c == '"')
        .filter(|w| w.starts_with("http://") || w.starts_with("https://"))
        .map(|w| w.to_string())
        .collect()
}

#[test]
fn subscribe_returns_200_for_valid_data() {
    let (mut signup, _) = signup_until_email("le guin", "ursula_le_guin@gmail.com");
    let action = signup.record_delivery_outcome(TransportOutcome::Responded(200));
    assert!(matches!(action, Action::Respond(200)));
    assert_eq!(signup.stage(), Stage::Succeeded);
}

#[test]
fn subscriber_persists_the_new_subscriber() {
    let (_, action) = Signup::start(
        some("le guin"),
        some("ursula_le_guin@gmail.com"),
        BASE_URL.to_string(),
    );
    match action {
        Action::InsertSubscriber { email, name, status, .. } => {
            assert_eq!(email, "ursula_le_guin@gmail.com");
            assert_eq!(name, "le guin");
            assert_eq!(status, "pending_confirmation");
        }
        other => panic!("unexpected action {:?}", other),
    }
}

#[test]
fn susbscribe_returns_400_when_data_is_missing() {
    let test_cases = vec![
        (some("le guin"), None, "missing the email"),
        (None, some("ursula_le_guin@gmail.com"), "missing the name"),
        (None, None, "missing both name and email"),
    ];
    for (name, email, error_message) in test_cases {
        let (signup, action) = Signup::start(name, email, BASE_URL.to_string());
        assert!(
            matches!(action, Action::Respond(400)),
            "The API did not fail with 400 Bad Request when the payload was {}.",
            error_message
        );
        assert_eq!(signup.stage(), Stage::Failed(FailureKind::Validation));
    }
}

#[test]
fn subscribe_returns_a_400_when_fields_are_present_but_invalid() {
    let test_cases = vec![
        (some(""), some("ursula_le_guin@gmail.com"), "empty name"),
        (some("Ursula"), some(""), "empty email"),
        (some("Ursula@email=definitely_not-an-email"), None, "invalid email"),
        (some("Ursula"), some("definitely_not-an-email"), "invalid email"),
    ];
    for (name, email, description) in test_cases {
        let (_, action) = Signup::start(name, email, BASE_URL.to_string());
        assert!(
            matches!(action, Action::Respond(400)),
            "The API did not return a 400 when the payload was {}.",
            description
        );
    }
}

#[test]
fn subscribe_sends_a_confirmation_email_for_valid_data() {
    let (_, action) = signup_until_email("le guin", "ursula_le_guin@gmail.com");
    match action {
        Action::SendEmail(email) => {
            assert_eq!(email.recipient.as_str(), "ursula_le_guin@gmail.com");
            assert_eq!(email.subject, "Welcome!");
        }
        other => panic!("unexpected action {:?}", other),
    }
}

#[test]
fn subscribe_sends_a_confirmation_email_with_a_link() {
    let (signup, action) = signup_until_email("le guin", "ursula_le_guin@gmail.com");
    let email = match action {
        Action::SendEmail(email) => email,
        other => panic!("unexpected action {:?}", other),
    };
    let html = links_in(&email.html_body);
    let plain_text = links_in(&email.text_body);
    assert_eq!(html.len(), 1);
    assert_eq!(plain_text.len(), 1);
    assert_eq!(html, plain_text);
    let expected = format!(
        "{}/subscriptions/confirm?subscription_token={}",
        BASE_URL,
        signup.token()
    );
    assert_eq!(html[0], expected);
    assert_eq!(signup.token().len(), 25);
}

#[test]
fn subscriber_fails_if_there_is_a_fatal_database_error() {
    let (mut signup, _) = Signup::start(
        some("le guin"),
        some("ursula_le_guin@gmail.com"),
        BASE_URL.to_string(),
    );
    let action = signup.record_storage_outcome(Err(StorageError::Query));
    assert!(matches!(action, Action::RollBack(500)));
    assert_eq!(signup.stage(), Stage::Failed(FailureKind::Storage));
    assert_eq!(signup.error(), Some(SignupError::Storage(StorageError::Query)));
}

#[test]
fn duplicate_email_fails_with_500_and_rolls_back() {
    let (mut signup, _) = Signup::start(
        some("le guin"),
        some("ursula_le_guin@gmail.com"),
        BASE_URL.to_string(),
    );
    let action = signup.record_storage_outcome(Err(StorageError::UniqueViolation));
    assert!(matches!(action, Action::RollBack(500)));
    assert_eq!(signup.error(), Some(SignupError::Storage(StorageError::UniqueViolation)));
}

#[test]
fn token_store_failure_rolls_back() {
    let (mut signup, _) = Signup::start(some("le guin"), some("ursula_le_guin@gmail.com"), BASE_URL.to_string());
    let action = signup.record_storage_outcome(Ok(()));
    assert!(matches!(action, Action::StoreToken { .. }));
    let action = signup.record_storage_outcome(Err(StorageError::UniqueViolation));
    assert!(matches!(action, Action::RollBack(500)));
    assert_eq!(signup.stage(), Stage::Failed(FailureKind::Storage));
}

#[test]
fn commit_failure_answers_500_without_rollback() {
    let (mut signup, _) = Signup::start(some("le guin"), some("ursula_le_guin@gmail.com"), BASE_URL.to_string());
    signup.record_storage_outcome(Ok(()));
    signup.record_storage_outcome(Ok(()));
    let action = signup.record_storage_outcome(Err(StorageError::TransactionUnavailable));
    assert!(matches!(action, Action::Respond(500)));
    assert_eq!(signup.stage(), Stage::Failed(FailureKind::Storage));
}

#[test]
fn provider_error_answers_500_after_commit() {
    let (mut signup, _) = signup_until_email("le guin", "ursula_le_guin@gmail.com");
    let action = signup.record_delivery_outcome(TransportOutcome::Responded(503));
    assert!(matches!(action, Action::Respond(500)));
    assert_eq!(signup.stage(), Stage::Failed(FailureKind::Delivery));
}

#[test]
fn provider_timeout_answers_500() {
    let (mut signup, _) = signup_until_email("le guin", "ursula_le_guin@gmail.com");
    let action = signup.record_delivery_outcome(TransportOutcome::TimedOut);
    assert!(matches!(action, Action::Respond(500)));
    assert_eq!(
        signup.error(),
        Some(SignupError::Delivery(zero2prod::email_client::DeliveryError::TimedOut))
    );
}

#[test]
fn validation_error_is_recorded() {
    let (signup, _) = Signup::start(some("a<b"), some("ursula_le_guin@gmail.com"), BASE_URL.to_string());
    assert_eq!(signup.error(), Some(SignupError::Validation(ValidationError::InvalidName)));
    let (signup, _) = Signup::start(some("ok"), some("nope"), BASE_URL.to_string());
    assert_eq!(signup.error(), Some(SignupError::Validation(ValidationError::InvalidEmail)));
    let (signup, _) = Signup::start(None, some("nope"), BASE_URL.to_string());
    assert_eq!(signup.error(), Some(SignupError::Validation(ValidationError::MissingName)));
    let (signup, _) = Signup::start(some("ok"), None, BASE_URL.to_string());
    assert_eq!(signup.error(), Some(SignupError::Validation(ValidationError::MissingEmail)));
}

#[test]
fn the_given_id_and_token_are_used() {
    let (mut signup, action) = Signup::start_with_id(
        some("le guin"),
        some("ursula_le_guin@gmail.com"),
        BASE_URL.to_string(),
        42,
    );
    assert!(matches!(action, Action::InsertSubscriber { subscriber_id: 42, .. }));
    let token = "abcdefghijklmnopqrstuvwxy".to_string();
    let action = signup.record_storage_outcome_with_token(Ok(()), token.clone());
    match action {
        Action::StoreToken { subscriber_id, token: stored } => {
            assert_eq!(subscriber_id, 42);
            assert_eq!(stored, token);
        }
        other => panic!("unexpected action {:?}", other),
    }
    assert_eq!(signup.token(), "abcdefghijklmnopqrstuvwxy");
}
