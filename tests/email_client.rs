use zero2prod::domain::SubscriberEmail;
use zero2prod::email_client::{
    build_send_email_request, classify_delivery, email_endpoint, DeliveryError, TransportOutcome,
};
use zero2prod::subscriptions::{confirmation_link, html_body, text_body};

fn email(s: &str) -> SubscriberEmail {
    SubscriberEmail::parse(s.to_string()).unwrap()
}

#[test]
fn send_email_sends_the_expected_request() {
    assert_eq!(email_endpoint("http://127.0.0.1:9000"), "http://127.0.0.1:9000/email");
    let request = build_send_email_request(
        &email("sender@example.com"),
        &email("recipient@example.com"),
        "A subject",
        "<p>html</p>",
        "text",
    );
    assert_eq!(request.from, "sender@example.com");
    assert_eq!(request.to, "recipient@example.com");
    assert_eq!(request.subject, "A subject");
    assert_eq!(request.html_body, "<p>html</p>");
    assert_eq!(request.text_body, "text");
}

#[test]
fn sned_email_succeeds_if_the_server_returns_200() {
    assert_eq!(classify_delivery(TransportOutcome::Responded(200)), Ok(()));
}

#[test]
fn send_email_fails_if_the_server_returns_500() {
    assert_eq!(
        classify_delivery(TransportOutcome::Responded(500)),
        Err(DeliveryError::Rejected(500))
    );
}

#[test]
fn send_email_times_out_if_the_server_takes_too_long() {
    assert_eq!(classify_delivery(TransportOutcome::TimedOut), Err(DeliveryError::TimedOut));
}

#[test]
fn status_classes_are_told_apart() {
    assert_eq!(classify_delivery(TransportOutcome::Responded(204)), Ok(()));
    assert_eq!(classify_delivery(TransportOutcome::Responded(299)), Ok(()));
    assert_eq!(
        classify_delivery(TransportOutcome::Responded(302)),
        Err(DeliveryError::Rejected(302))
    );
    assert_eq!(
        classify_delivery(TransportOutcome::Responded(404)),
        Err(DeliveryError::Rejected(404))
    );
    assert_eq!(classify_delivery(TransportOutcome::Unreachable), Err(DeliveryError::Unreachable));
}

#[test]
fn confirmation_bodies_hold_the_link() {
    let link = confirmation_link("https://my-api.com", "abc");
    assert_eq!(link, "https://my-api.com/subscriptions/confirm?subscription_token=abc");
    assert_eq!(
        text_body(&link),
        "Welcome to our newsletter! \nVisit https://my-api.com/subscriptions/confirm?subscription_token=abc to confirm your subscription."
    );
    assert_eq!(
        html_body(&link),
        "\n            Welcome to our newletter! <br/>\n            Click <a href=\"https://my-api.com/subscriptions/confirm?subscription_token=abc\">here</a> to confirm your subscription."
    );
}
