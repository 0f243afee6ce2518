//! A subscriber about to be enrolled.

use crate::domain::subscriber_email::{is_valid_email, SubscriberEmail};
use crate::domain::subscriber_name::{name_fault, SubscriberName};
use crate::domain::ValidationError;
use crate::routes::subscriptions::FormData;
use vstd::prelude::*;

verus! {

/// A subscriber whose name and email address passed validation.
#[derive(Debug)]
pub struct NewSubscriber {
    pub email: SubscriberEmail,
    pub name: SubscriberName,
}

/// The rule that a form breaks, if any. The name is looked at first.
pub open spec fn form_fault(name: Seq<char>, email: Seq<char>) -> Option<ValidationError> {
    if name_fault(name) is Some {
        name_fault(name)
    } else if !is_valid_email(email) {
        Some(ValidationError::InvalidEmail)
    } else {
        None
    }
}

impl NewSubscriber {
    /// Validates both fields of a form. The subscriber holds them unchanged.
    pub fn try_from(value: FormData) -> (converted: Result<NewSubscriber, ValidationError>)
        ensures
            match converted {
                Ok(subscriber) => {
                    &&& form_fault(value.name@, value.email@) is None
                    &&& subscriber.name@ == value.name@
                    &&& subscriber.email@ == value.email@
                },
                Err(fault) => form_fault(value.name@, value.email@) == Some(fault),
            },
    {
        let name = match SubscriberName::parse(value.name) {
            Ok(name) => name,
            Err(fault) => {
                return Err(fault);
            },
        };
        let email = match SubscriberEmail::parse(value.email) {
            Ok(email) => email,
            Err(fault) => {
                return Err(fault);
            },
        };
        Ok(NewSubscriber { email, name })
    }
}

impl Clone for NewSubscriber {
    fn clone(&self) -> (copy: Self)
        ensures
            copy.email@ == self.email@,
            copy.name@ == self.name@,
    {
        NewSubscriber { email: self.email.clone(), name: self.name.clone() }
    }
}

} // verus!
