//! The decisions of the subscription endpoint.
use vstd::prelude::*;

use crate::domain::new_subscriber::NewSubscriber;
use crate::domain::subscriber_email::{email_error, is_valid_email, SubscriberEmail};
use crate::domain::subscriber_name::{
    extended_grapheme_count, is_valid_name, name_error, SubscriberName,
};

verus! {

/// The fields of a subscription form.
#[derive(Debug)]
pub struct FormData {
    pub email: String,
    pub name: String,
}

/// Whether a form passes the checks of its name and of its email address.
pub open spec fn is_valid_form(name: Seq<char>, email: Seq<char>) -> bool {
    is_valid_name(name, extended_grapheme_count(name)) && is_valid_email(email)
}

/// The message with which a form is refused: the name's when the name is
/// invalid, the email address's otherwise.
pub open spec fn form_error(name: Seq<char>, email: Seq<char>) -> Seq<char> {
    if !is_valid_name(name, extended_grapheme_count(name)) {
        name_error(name)
    } else {
        email_error(email)
    }
}

impl NewSubscriber {
    /// Checks the name, then the email address, of a form.
    pub fn try_from(value: FormData) -> (r: Result<NewSubscriber, String>)
        ensures
            match r {
                Ok(s) => is_valid_form(value.name@, value.email@) && s.name@ == value.name@
                    && s.email@ == value.email@,
                Err(e) => !is_valid_form(value.name@, value.email@) && e@ == form_error(
                    value.name@,
                    value.email@,
                ),
            },
            r is Ok ==> is_valid_name(value.name@, extended_grapheme_count(value.name@)),
            r is Ok ==> is_valid_email(value.email@),
            is_valid_name(value.name@, extended_grapheme_count(value.name@)) && is_valid_email(
                value.email@,
            ) ==> r is Ok,
            r matches Err(e) ==> (!is_valid_name(value.name@, extended_grapheme_count(value.name@))
                ==> e@ == name_error(value.name@)),
            r matches Err(e) ==> (is_valid_name(value.name@, extended_grapheme_count(value.name@))
                ==> e@ == email_error(value.email@)),
    {
        let name = match SubscriberName::parse(value.name.as_str()) {
            Ok(name) => name,
            Err(e) => return Err(e),
        };
        let email = match SubscriberEmail::parse(value.email) {
            Ok(email) => email,
            Err(e) => return Err(e),
        };
        Ok(NewSubscriber { email, name })
    }
}

/// An HTTP reply: its status code and its body.
pub struct HttpReply {
    pub status: u16,
    pub body: String,
}

/// What the subscription endpoint does with a form: store the subscriber,
/// or reply at once.
pub enum SubscribeStep {
    Store(NewSubscriber),
    Reply(HttpReply),
}

/// A valid form is to be stored; an invalid one is answered with 400 and
/// the reason.
pub fn subscribe_step(form: FormData) -> (step: SubscribeStep)
    ensures
        match step {
            SubscribeStep::Store(s) => is_valid_form(form.name@, form.email@) && s.name@
                == form.name@ && s.email@ == form.email@,
            SubscribeStep::Reply(reply) => !is_valid_form(form.name@, form.email@) && reply.status
                == 400 && reply.body@ == "invalid : "@ + form_error(form.name@, form.email@),
        },
        step is Store ==> is_valid_name(form.name@, extended_grapheme_count(form.name@))
            && is_valid_email(form.email@),
        is_valid_name(form.name@, extended_grapheme_count(form.name@)) && is_valid_email(
            form.email@,
        ) ==> step is Store,
        step matches SubscribeStep::Reply(reply) ==> reply.status == 400 && (!is_valid_name(
            form.name@,
            extended_grapheme_count(form.name@),
        ) ==> reply.body@ == "invalid : "@ + name_error(form.name@)) && (is_valid_name(
            form.name@,
            extended_grapheme_count(form.name@),
        ) ==> reply.body@ == "invalid : "@ + email_error(form.email@)),
{
    match NewSubscriber::try_from(form) {
        Ok(s) => SubscribeStep::Store(s),
        Err(e) => {
            let mut body = String::from_str("invalid : ");
            body.append(e.as_str());
            SubscribeStep::Reply(HttpReply { status: 400, body })
        },
    }
}

/// The reply once the store was tried: 200 when it succeeded, 500 with the
/// store's error otherwise.
pub fn stored_reply(outcome: Result<(), String>) -> (reply: HttpReply)
    ensures
        match outcome {
            Ok(()) => reply.status == 200 && reply.body@ == "Success"@,
            Err(e) => reply.status == 500 && reply.body@ == "Failed to execute query: "@ + e@,
        },
{
    match outcome {
        Ok(()) => HttpReply { status: 200, body: String::from_str("Success") },
        Err(e) => {
            let mut body = String::from_str("Failed to execute query: ");
            body.append(e.as_str());
            HttpReply { status: 500, body }
        },
    }
}

/// A form is accepted exactly when its name passes the name check and its
/// email address passes the email validator; a refused form is refused for
/// its name when the name fails, and for its address otherwise.
pub proof fn forms_are_judged_by_name_then_email(name: Seq<char>, email: Seq<char>)
    ensures
        is_valid_form(name, email) ==> is_valid_email(email),
        is_valid_form(name, email) ==> is_valid_name(name, extended_grapheme_count(name)),
        is_valid_name(name, extended_grapheme_count(name)) && is_valid_email(email)
            ==> is_valid_form(name, email),
        !is_valid_name(name, extended_grapheme_count(name)) ==> form_error(name, email)
            == name_error(name),
        is_valid_name(name, extended_grapheme_count(name)) ==> form_error(name, email)
            == email_error(email),
{
}

} // verus!
