//! What the email client sends to the email delivery service.
use vstd::prelude::*;

use crate::domain::subscriber_email::SubscriberEmail;

verus! {

/// The header that carries the service's authorization token.
pub open spec fn token_header_name() -> Seq<char> {
    "X-Postmark-Server-token"@
}

/// The JSON body of a request to send one email.
pub struct SendEmailRequest {
    pub from: String,
    pub to: String,
    pub subject: String,
    pub html_body: String,
    pub text_body: String,
}

/// A request to send one email: a POST of `body` as JSON to `url`, with the
/// header `token_header` set to `token`.
pub struct EmailRequest {
    pub url: String,
    pub token_header: String,
    pub token: String,
    pub body: SendEmailRequest,
}

/// The settings of a client of the email delivery service.
pub struct EmailClient {
    sender: SubscriberEmail,
    base_url: String,
    authorization_token: String,
    timeout: std::time::Duration,
}

impl EmailClient {
    pub closed spec fn sender_view(&self) -> Seq<char> {
        self.sender@
    }

    pub closed spec fn base_url_view(&self) -> Seq<char> {
        self.base_url@
    }

    pub closed spec fn token_view(&self) -> Seq<char> {
        self.authorization_token@
    }

    pub closed spec fn timeout_view(&self) -> std::time::Duration {
        self.timeout
    }

    pub fn new(
        base_url: &str,
        sender: SubscriberEmail,
        authorization_token: String,
        timeout: std::time::Duration,
    ) -> (c: Self)
        ensures
            c.sender_view() == sender@,
            c.base_url_view() == base_url@,
            c.token_view() == authorization_token@,
            c.timeout_view() == timeout,
    {
        EmailClient { base_url: String::from_str(base_url), sender, authorization_token, timeout }
    }

    /// How long a request to the service may take.
    pub fn timeout(&self) -> (d: std::time::Duration)
        ensures
            d == self.timeout_view(),
    {
        self.timeout
    }

    /// The request that sends an email to `recipient`: it goes to
    /// `{base_url}/email`, carries the authorization token, and names the
    /// client's sender as `from`.
    pub fn email_request(
        &self,
        recipient: SubscriberEmail,
        subject: &str,
        html_content: &str,
        text_content: &str,
    ) -> (r: EmailRequest)
        ensures
            r.url@ == self.base_url_view() + "/email"@,
            r.token_header@ == token_header_name(),
            r.token_header@ == "X-Postmark-Server-token"@,
            r.token@ == self.token_view(),
            r.body.from@ == self.sender_view(),
            r.body.to@ == recipient@,
            r.body.subject@ == subject@,
            r.body.html_body@ == html_content@,
            r.body.text_body@ == text_content@,
    {
        let mut url = self.base_url.clone();
        url.append("/email");
        let body = SendEmailRequest {
            from: String::from_str(self.sender.inner_ref()),
            to: String::from_str(recipient.inner_ref()),
            subject: String::from_str(subject),
            html_body: String::from_str(html_content),
            text_body: String::from_str(text_content),
        };
        EmailRequest {
            url,
            token_header: String::from_str("X-Postmark-Server-token"),
            token: self.authorization_token.clone(),
            body,
        }
    }
}

} // verus!
