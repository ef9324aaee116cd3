use crate::domain::SubscriberEmail;
use vstd::prelude::*;

verus! {

/// The JSON payload of the provider's `POST /email`, one field per entry
/// (`From`, `To`, `Subject`, `HtmlBody`, `TextBody`).
#[derive(Debug, Clone)]
pub struct SendEmailRequest {
    pub from: String,
    pub to: String,
    pub subject: String,
    pub html_body: String,
    pub text_body: String,
}

/// What came back from the provider's HTTP endpoint.
#[derive(Clone, Copy, Debug, PartialEq, Eq, Structural)]
pub enum TransportOutcome {
    /// The provider answered with this HTTP status.
    Responded(u16),
    /// No answer within the configured timeout.
    TimedOut,
    /// The request never reached the provider (DNS, refused connection).
    Unreachable,
}

/// Why a confirmation email was not accepted by the provider.
#[derive(Clone, Copy, Debug, PartialEq, Eq, Structural)]
pub enum DeliveryError {
    /// The provider answered with a status outside 2xx.
    Rejected(u16),
    TimedOut,
    Unreachable,
}

/// The URL of the provider's send endpoint.
pub fn email_endpoint(base_url: &str) -> (r: String)
    ensures
        r@ == base_url@ + "/email"@,
{
    String::from_str(base_url).concat("/email")
}

/// The payload for one email from `sender` to `recipient`.
pub fn build_send_email_request(
    sender: &SubscriberEmail,
    recipient: &SubscriberEmail,
    subject: &str,
    html_body: &str,
    text_body: &str,
) -> (r: SendEmailRequest)
    ensures
        r.from@ == sender@,
        r.to@ == recipient@,
        r.subject@ == subject@,
        r.html_body@ == html_body@,
        r.text_body@ == text_body@,
{
    SendEmailRequest {
        from: String::from_str(sender.as_str()),
        to: String::from_str(recipient.as_str()),
        subject: String::from_str(subject),
        html_body: String::from_str(html_body),
        text_body: String::from_str(text_body),
    }
}

pub open spec fn is_success_status(status: u16) -> bool {
    200 <= status && status <= 299
}

pub open spec fn spec_classify_delivery(outcome: TransportOutcome) -> Result<(), DeliveryError> {
    match outcome {
        TransportOutcome::Responded(status) => if is_success_status(status) {
            Ok(())
        } else {
            Err(DeliveryError::Rejected(status))
        },
        TransportOutcome::TimedOut => Err(DeliveryError::TimedOut),
        TransportOutcome::Unreachable => Err(DeliveryError::Unreachable),
    }
}

/// A 2xx answer is a delivery; any other status, a timeout or a network
/// failure is a `DeliveryError` of its own kind.
pub fn classify_delivery(outcome: TransportOutcome) -> (r: Result<(), DeliveryError>)
    ensures
        r == spec_classify_delivery(outcome),
{
    match outcome {
        TransportOutcome::Responded(status) => if 200 <= status && status <= 299 {
            Ok(())
        } else {
            Err(DeliveryError::Rejected(status))
        },
        TransportOutcome::TimedOut => Err(DeliveryError::TimedOut),
        TransportOutcome::Unreachable => Err(DeliveryError::Unreachable),
    }
}

} // verus!
