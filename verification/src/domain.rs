//! Validated subscriber data. A value of one of these types is proof that
//! its text passed validation: parsing is the only way to make one.

pub mod new_subscriber;
pub mod subscriber_email;
pub mod subscriber_name;

pub use new_subscriber::NewSubscriber;
pub use subscriber_email::SubscriberEmail;
pub use subscriber_name::SubscriberName;

use vstd::prelude::*;

verus! {

/// Why a piece of subscriber data was refused.
#[derive(Debug, Clone, Copy, PartialEq, Eq, Structural)]
pub enum ValidationError {
    /// The name is empty or holds white space only.
    EmptyName,
    /// The name is longer than 256 grapheme clusters.
    NameTooLong,
    /// The name holds one of the characters `/ ( ) " < > \ { }`.
    ForbiddenCharacter,
    /// The email address does not follow the mailbox grammar.
    InvalidEmail,
}

impl ValidationError {
    /// A message fit for the client: it names the rule that was broken and
    /// never repeats the input.
    pub open spec fn message_text(self) -> Seq<char> {
        match self {
            ValidationError::EmptyName => "The subscriber name is empty."@,
            ValidationError::NameTooLong => "The subscriber name is longer than 256 graphemes."@,
            ValidationError::ForbiddenCharacter => "The subscriber name contains a forbidden character."@,
            ValidationError::InvalidEmail => "The subscriber email is not a valid email address."@,
        }
    }

    pub fn message(&self) -> (text: &'static str)
        ensures
            text@ == self.message_text(),
    {
        match self {
            ValidationError::EmptyName => "The subscriber name is empty.",
            ValidationError::NameTooLong => "The subscriber name is longer than 256 graphemes.",
            ValidationError::ForbiddenCharacter => "The subscriber name contains a forbidden character.",
            ValidationError::InvalidEmail => "The subscriber email is not a valid email address.",
        }
    }
}

} // verus!
