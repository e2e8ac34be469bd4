//! A subscriber's email address, checked before it is stored or written to.
use vstd::prelude::*;

verus! {

/// Whether `validator` accepts a text as an email address.
pub uninterp spec fn is_valid_email(s: Seq<char>) -> bool;

/// Calls `validator::validate_email`. The contract names its answer and
/// states what its source checks first: an accepted text is not empty and
/// holds an `@`.
#[verifier::external_body]
fn email_is_valid(s: &str) -> (b: bool)
    ensures
        b == is_valid_email(s@),
        b ==> s@.len() > 0 && s@.contains('@'),
{
    validator::validate_email(s)
}

/// The message with which an invalid address is refused.
pub open spec fn email_error(s: Seq<char>) -> Seq<char> {
    s + " is not a valid subscriber email."@
}

/// The refusal message is the address followed by
/// ` is not a valid subscriber email.`.
pub proof fn email_error_names_the_address(s: Seq<char>)
    ensures
        email_error(s).len() == s.len() + 33,
        email_error(s).subrange(0, s.len() as int) == s,
        email_error(s).subrange(s.len() as int, s.len() + 33int)
            == " is not a valid subscriber email."@,
{
    reveal_strlit(" is not a valid subscriber email.");
    assert(email_error(s).subrange(0, s.len() as int) =~= s);
    assert(email_error(s).subrange(s.len() as int, s.len() + 33int)
        =~= " is not a valid subscriber email."@);
}

/// An email address that passed the checks of `SubscriberEmail::parse`.
#[derive(Debug, Clone)]
pub struct SubscriberEmail(String);

impl View for SubscriberEmail {
    type V = Seq<char>;

    closed spec fn view(&self) -> Seq<char> {
        self.0@
    }
}

impl SubscriberEmail {
    /// Keeps `s` as an address when the email check accepted it (`valid`),
    /// and refuses it otherwise.
    pub fn parse_checked(s: String, valid: bool) -> (r: Result<SubscriberEmail, String>)
        ensures
            match r {
                Ok(email) => valid && email@ == s@,
                Err(e) => !valid && e@ == email_error(s@),
            },
    {
        if valid {
            Ok(SubscriberEmail(s))
        } else {
            let mut msg = s;
            msg.append(" is not a valid subscriber email.");
            Err(msg)
        }
    }

    /// Checks `s` as an email address.
    pub fn parse(s: String) -> (r: Result<SubscriberEmail, String>)
        ensures
            match r {
                Ok(email) => is_valid_email(s@) && email@ == s@,
                Err(e) => !is_valid_email(s@) && e@ == email_error(s@),
            },
    {
        let valid = email_is_valid(s.as_str());
        Self::parse_checked(s, valid)
    }

    /// The address as text.
    pub fn inner_ref(&self) -> (s: &str)
        ensures
            s@ == self@,
    {
        self.0.as_str()
    }
}

impl AsRef<str> for SubscriberEmail {
    fn as_ref(&self) -> (s: &str)
        ensures
            s@ == self@,
    {
        self.0.as_str()
    }
}

} // verus!
