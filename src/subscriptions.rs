use crate::domain::SubscriberEmail;
use vstd::prelude::*;

verus! {

/// The public URL of the application, which confirmation links start with.
pub struct ApplicationBaseUrl(pub String);

/// Path and query key of the confirmation endpoint, appended to the base URL.
pub open spec fn confirm_path() -> Seq<char> {
    "/subscriptions/confirm?subscription_token="@
}

pub open spec fn confirmation_link_of(base_url: Seq<char>, token: Seq<char>) -> Seq<char> {
    base_url + confirm_path() + token
}

pub open spec fn text_head() -> Seq<char> {
    "Welcome to our newsletter! \nVisit "@
}

pub open spec fn text_tail() -> Seq<char> {
    " to confirm your subscription."@
}

pub open spec fn html_head() -> Seq<char> {
    "\n            Welcome to our newletter! <br/>\n            Click <a href=\""@
}

pub open spec fn html_tail() -> Seq<char> {
    "\">here</a> to confirm your subscription."@
}

pub open spec fn text_body_of(link: Seq<char>) -> Seq<char> {
    text_head() + link + text_tail()
}

pub open spec fn html_body_of(link: Seq<char>) -> Seq<char> {
    html_head() + link + html_tail()
}

/// The link that confirms the subscription holding `token`.
pub fn confirmation_link(base_url: &str, token: &str) -> (r: String)
    ensures
        r@ == confirmation_link_of(base_url@, token@),
{
    String::from_str(base_url).concat("/subscriptions/confirm?subscription_token=").concat(token)
}

/// The plain-text body of the confirmation email.
pub fn text_body(link: &str) -> (r: String)
    ensures
        r@ == text_body_of(link@),
{
    String::from_str("Welcome to our newsletter! \nVisit ").concat(link).concat(
        " to confirm your subscription.",
    )
}

/// The HTML body of the confirmation email.
pub fn html_body(link: &str) -> (r: String)
    ensures
        r@ == html_body_of(link@),
{
    String::from_str("\n            Welcome to our newletter! <br/>\n            Click <a href=\"").concat(
        link,
    ).concat("\">here</a> to confirm your subscription.")
}

/// The confirmation email for one subscriber, before it is handed to the
/// email client.
#[derive(Debug)]
pub struct ConfirmationEmail {
    pub recipient: SubscriberEmail,
    pub subject: String,
    pub html_body: String,
    pub text_body: String,
}

/// Builds the confirmation email: subject `Welcome!`, and the same link in
/// both bodies.
pub fn confirmation_email(recipient: &SubscriberEmail, base_url: &str, token: &str) -> (r:
    ConfirmationEmail)
    ensures
        r.recipient@ == recipient@,
        r.subject@ == "Welcome!"@,
        r.text_body@ == text_body_of(confirmation_link_of(base_url@, token@)),
        r.html_body@ == html_body_of(confirmation_link_of(base_url@, token@)),
{
    let link = confirmation_link(base_url, token);
    ConfirmationEmail {
        recipient: recipient.duplicate(),
        subject: String::from_str("Welcome!"),
        html_body: html_body(link.as_str()),
        text_body: text_body(link.as_str()),
    }
}

/// The HTML and text bodies of a confirmation email carry one and the same
/// link, `{base_url}/subscriptions/confirm?subscription_token={token}`, each
/// between fixed text.
pub proof fn lemma_confirmation_links_agree(base_url: Seq<char>, token: Seq<char>)
    ensures
        ({
            let link = confirmation_link_of(base_url, token);
            let text = text_body_of(link);
            let html = html_body_of(link);
            &&& text.subrange(text_head().len() as int, (text_head().len() + link.len()) as int)
                == link
            &&& html.subrange(html_head().len() as int, (html_head().len() + link.len()) as int)
                == link
            &&& text.len() == text_head().len() + link.len() + text_tail().len()
            &&& html.len() == html_head().len() + link.len() + html_tail().len()
            &&& link == base_url + confirm_path() + token
        }),
{
    let link = confirmation_link_of(base_url, token);
    assert(text_body_of(link).subrange(
        text_head().len() as int,
        (text_head().len() + link.len()) as int,
    ) =~= link);
    assert(html_body_of(link).subrange(
        html_head().len() as int,
        (html_head().len() + link.len()) as int,
    ) =~= link);
}

} // verus!
