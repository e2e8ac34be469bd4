//! A subscription request whose parts passed their checks.
use vstd::prelude::*;

use crate::domain::subscriber_email::SubscriberEmail;
use crate::domain::subscriber_name::SubscriberName;

verus! {

pub struct NewSubscriber {
    pub email: SubscriberEmail,
    pub name: SubscriberName,
}

} // verus!
