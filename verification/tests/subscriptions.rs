use rust2prod::domain::{NewSubscriber, SubscriberEmail};
use rust2prod::email_client::EmailClient;
use rust2prod::routes::{stored_reply, subscribe_step, FormData, SubscribeStep};

fn form(name: &str, email: &str) -> FormData {
    FormData { email: email.to_string(), name: name.to_string() }
}

#[test]
fn a_valid_email_is_accepted() {
    let email = SubscriberEmail::parse("ursula_le_guin@gmail.com".to_string()).unwrap();
    assert_eq!(email.inner_ref(), "ursula_le_guin@gmail.com");
}

#[test]
fn invalid_emails_are_rejected() {
    for email in ["", "ursuladomain.com", "@domain.com"] {
        assert_eq!(
            SubscriberEmail::parse(email.to_string()).err().unwrap(),
            format!("{} is not a valid subscriber email.", email)
        );
    }
}

#[test]
fn parse_checked_follows_the_given_verdict() {
    assert!(SubscriberEmail::parse_checked("not an email".to_string(), true).is_ok());
    assert!(SubscriberEmail::parse_checked("a@b.com".to_string(), false).is_err());
}

#[test]
fn a_valid_form_gives_a_new_subscriber() {
    let s = NewSubscriber::try_from(form("le guin", "ursula_le_guin@gmail.com")).unwrap();
    assert_eq!(s.name.as_ref(), "le guin");
    assert_eq!(s.email.as_ref(), "ursula_le_guin@gmail.com");
}

#[test]
fn the_name_is_checked_before_the_email() {
    assert_eq!(
        NewSubscriber::try_from(form("", "not-an-email")).err().unwrap(),
        " is not a valid subscriber name"
    );
    assert_eq!(
        NewSubscriber::try_from(form("le guin", "not-an-email")).err().unwrap(),
        "not-an-email is not a valid subscriber email."
    );
}

#[test]
fn a_valid_form_is_to_be_stored() {
    match subscribe_step(form("le guin", "ursula_le_guin@gmail.com")) {
        SubscribeStep::Store(s) => {
            assert_eq!(s.name.inner_ref(), "le guin");
            assert_eq!(s.email.inner_ref(), "ursula_le_guin@gmail.com");
        }
        SubscribeStep::Reply(_) => panic!("a valid form was refused"),
    }
}

#[test]
fn an_invalid_form_is_answered_with_400() {
    let cases = [("", "ursula_le_guin@gmail.com"), ("le guin", ""), ("Ursula", "definitely-not-an-email")];
    for (name, email) in cases {
        match subscribe_step(form(name, email)) {
            SubscribeStep::Reply(reply) => {
                assert_eq!(reply.status, 400);
                assert!(reply.body.starts_with("invalid : "));
            }
            SubscribeStep::Store(_) => panic!("an invalid form was accepted"),
        }
    }
    match subscribe_step(form("a(b", "x@y.com")) {
        SubscribeStep::Reply(reply) => assert_eq!(reply.body, "invalid : a(b is not a valid subscriber name"),
        SubscribeStep::Store(_) => panic!("an invalid form was accepted"),
    }
}

#[test]
fn a_stored_subscriber_is_answered_with_200() {
    let reply = stored_reply(Ok(()));
    assert_eq!(reply.status, 200);
    assert_eq!(reply.body, "Success");
}

#[test]
fn a_failed_store_is_answered_with_500() {
    let reply = stored_reply(Err("connection refused".to_string()));
    assert_eq!(reply.status, 500);
    assert_eq!(reply.body, "Failed to execute query: connection refused");
}

#[test]
fn an_email_request_goes_to_the_email_endpoint() {
    let sender = SubscriberEmail::parse("sender@example.com".to_string()).unwrap();
    let client = EmailClient::new(
        "http://localhost:1234",
        sender,
        "token".to_string(),
        std::time::Duration::from_millis(200),
    );
    assert_eq!(client.timeout(), std::time::Duration::from_millis(200));
    let recipient = SubscriberEmail::parse("to@example.com".to_string()).unwrap();
    let request = client.email_request(recipient, "Hello", "<p>Hi</p>", "Hi");
    assert_eq!(request.url, "http://localhost:1234/email");
    assert_eq!(request.token_header, "X-Postmark-Server-token");
    assert_eq!(request.token, "token");
    assert_eq!(request.body.from, "sender@example.com");
    assert_eq!(request.body.to, "to@example.com");
    assert_eq!(request.body.subject, "Hello");
    assert_eq!(request.body.html_body, "<p>Hi</p>");
    assert_eq!(request.body.text_body, "Hi");
}
