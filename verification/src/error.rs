//! The ways in which a request fails, and what the client is told of each.
//!
//! The client learns the class of a failure and never its cause: the two
//! ways to fail authentication look the same, and a failure of the store
//! or of the email service is a bare server error.

use crate::domain::ValidationError;
use vstd::prelude::*;
use vstd::string::StringExecFns;

verus! {

pub const STATUS_OK: u16 = 200;

pub const STATUS_SEE_OTHER: u16 = 303;

pub const STATUS_BAD_REQUEST: u16 = 400;

pub const STATUS_UNAUTHORIZED: u16 = 401;

pub const STATUS_INTERNAL_SERVER_ERROR: u16 = 500;

/// Why an attempt to authenticate failed.
#[derive(Debug, Clone, Copy, PartialEq, Eq, Structural)]
pub enum AuthError {
    /// The username is unknown or the password is wrong: which of the two
    /// is not told.
    InvalidCredentials,
    /// Something else went wrong: the store or the worker failed.
    UnexpectedError,
}

/// Why an enrollment failed.
#[derive(Debug, Clone, Copy, PartialEq, Eq, Structural)]
pub enum SubscribeError {
    /// The form was refused; nothing was stored.
    BadRequest(ValidationError),
    /// The store failed; nothing was stored and no email was sent.
    PersistenceFailure,
    /// The subscriber is stored, but the confirmation email could not be
    /// sent.
    EmailFailure,
}

impl SubscribeError {
    pub open spec fn status(self) -> u16 {
        match self {
            SubscribeError::BadRequest(_) => STATUS_BAD_REQUEST,
            SubscribeError::PersistenceFailure => STATUS_INTERNAL_SERVER_ERROR,
            SubscribeError::EmailFailure => STATUS_INTERNAL_SERVER_ERROR,
        }
    }

    pub fn status_code(&self) -> (status: u16)
        ensures
            status == self.status(),
    {
        match self {
            SubscribeError::BadRequest(_) => STATUS_BAD_REQUEST,
            SubscribeError::PersistenceFailure => STATUS_INTERNAL_SERVER_ERROR,
            SubscribeError::EmailFailure => STATUS_INTERNAL_SERVER_ERROR,
        }
    }

    /// What the client is told beside the status: the rule that its form
    /// broke, and nothing of a failure inside the service.
    pub fn client_message(&self) -> (text: Option<&'static str>)
        ensures
            match text {
                Some(message) => self is BadRequest && message@ == self->BadRequest_0.message_text(),
                None => !(self is BadRequest),
            },
    {
        match self {
            SubscribeError::BadRequest(fault) => Some(fault.message()),
            _ => None,
        }
    }

    pub open spec fn message_text(self) -> Seq<char> {
        match self {
            SubscribeError::BadRequest(fault) => fault.message_text(),
            SubscribeError::PersistenceFailure => "Failed to store the new subscriber."@,
            SubscribeError::EmailFailure => "Failed to send a confirmation email to the new subscriber."@,
        }
    }

    /// What the logs are told.
    pub fn message(&self) -> (text: &'static str)
        ensures
            text@ == self.message_text(),
    {
        match self {
            SubscribeError::BadRequest(fault) => fault.message(),
            SubscribeError::PersistenceFailure => "Failed to store the new subscriber.",
            SubscribeError::EmailFailure => "Failed to send a confirmation email to the new subscriber.",
        }
    }
}

/// The status that answers an enrollment.
pub fn subscribe_status(outcome: Result<(), SubscribeError>) -> (status: u16)
    ensures
        status == match outcome {
            Ok(()) => STATUS_OK,
            Err(error) => error.status(),
        },
{
    match outcome {
        Ok(()) => STATUS_OK,
        Err(error) => error.status_code(),
    }
}

/// Why a confirmation failed.
#[derive(Debug, Clone, Copy, PartialEq, Eq, Structural)]
pub enum ConfirmationError {
    /// No subscriber is bound to the token.
    UnknownToken,
    /// The store failed.
    UnexpectedError,
}

impl ConfirmationError {
    pub open spec fn status(self) -> u16 {
        match self {
            ConfirmationError::UnknownToken => STATUS_UNAUTHORIZED,
            ConfirmationError::UnexpectedError => STATUS_INTERNAL_SERVER_ERROR,
        }
    }

    pub fn status_code(&self) -> (status: u16)
        ensures
            status == self.status(),
    {
        match self {
            ConfirmationError::UnknownToken => STATUS_UNAUTHORIZED,
            ConfirmationError::UnexpectedError => STATUS_INTERNAL_SERVER_ERROR,
        }
    }

    pub open spec fn message_text(self) -> Seq<char> {
        match self {
            ConfirmationError::UnknownToken => "There is no subscriber associated with the provided token."@,
            ConfirmationError::UnexpectedError => "Failed to confirm the subscriber."@,
        }
    }

    pub fn message(&self) -> (text: &'static str)
        ensures
            text@ == self.message_text(),
    {
        match self {
            ConfirmationError::UnknownToken => "There is no subscriber associated with the provided token.",
            ConfirmationError::UnexpectedError => "Failed to confirm the subscriber.",
        }
    }
}

/// The status that answers a confirmation.
pub fn confirmation_status(outcome: Result<(), ConfirmationError>) -> (status: u16)
    ensures
        status == match outcome {
            Ok(()) => STATUS_OK,
            Err(error) => error.status(),
        },
{
    match outcome {
        Ok(()) => STATUS_OK,
        Err(error) => error.status_code(),
    }
}

/// Why a newsletter was not published.
#[derive(Debug, Clone, Copy, PartialEq, Eq, Structural)]
pub enum PublishError {
    /// The request carried no credentials, or none that are valid.
    AuthError,
    /// The store or the email service failed.
    UnexpectedError,
}

/// The challenge sent with every refusal to publish.
pub const PUBLISH_CHALLENGE: &'static str = "Basic realm=\"publish\"";

impl PublishError {
    pub open spec fn status(self) -> u16 {
        match self {
            PublishError::AuthError => STATUS_UNAUTHORIZED,
            PublishError::UnexpectedError => STATUS_INTERNAL_SERVER_ERROR,
        }
    }

    pub fn status_code(&self) -> (status: u16)
        ensures
            status == self.status(),
    {
        match self {
            PublishError::AuthError => STATUS_UNAUTHORIZED,
            PublishError::UnexpectedError => STATUS_INTERNAL_SERVER_ERROR,
        }
    }

    /// The value of the `WWW-Authenticate` header of the response: the
    /// challenge where authentication failed, none otherwise.
    pub fn www_authenticate(&self) -> (challenge: Option<&'static str>)
        ensures
            match challenge {
                Some(value) => self == PublishError::AuthError && value@ == PUBLISH_CHALLENGE@,
                None => self == PublishError::UnexpectedError,
            },
    {
        match self {
            PublishError::AuthError => Some(PUBLISH_CHALLENGE),
            PublishError::UnexpectedError => None,
        }
    }

    pub open spec fn message_text(self) -> Seq<char> {
        match self {
            PublishError::AuthError => "Authentication failed."@,
            PublishError::UnexpectedError => "Failed to publish the newsletter."@,
        }
    }

    pub fn message(&self) -> (text: &'static str)
        ensures
            text@ == self.message_text(),
    {
        match self {
            PublishError::AuthError => "Authentication failed.",
            PublishError::UnexpectedError => "Failed to publish the newsletter.",
        }
    }

    /// How a failed authentication is reported by the publish endpoint.
    pub fn from_auth_error(error: AuthError) -> (converted: PublishError)
        ensures
            converted == match error {
                AuthError::InvalidCredentials => PublishError::AuthError,
                AuthError::UnexpectedError => PublishError::UnexpectedError,
            },
    {
        match error {
            AuthError::InvalidCredentials => PublishError::AuthError,
            AuthError::UnexpectedError => PublishError::UnexpectedError,
        }
    }
}

/// The status that answers a request to publish.
pub fn publish_status(outcome: Result<(), PublishError>) -> (status: u16)
    ensures
        status == match outcome {
            Ok(()) => STATUS_OK,
            Err(error) => error.status(),
        },
{
    match outcome {
        Ok(()) => STATUS_OK,
        Err(error) => error.status_code(),
    }
}

/// Why a login failed.
#[derive(Debug, Clone, Copy, PartialEq, Eq, Structural)]
pub enum LoginError {
    AuthError,
    UnexpectedError,
}

impl LoginError {
    pub open spec fn message_text(self) -> Seq<char> {
        match self {
            LoginError::AuthError => "Authentication failed."@,
            LoginError::UnexpectedError => "Something went wrong."@,
        }
    }

    pub fn message(&self) -> (text: &'static str)
        ensures
            text@ == self.message_text(),
    {
        match self {
            LoginError::AuthError => "Authentication failed.",
            LoginError::UnexpectedError => "Something went wrong.",
        }
    }

    pub fn from_auth_error(error: AuthError) -> (converted: LoginError)
        ensures
            converted == match error {
                AuthError::InvalidCredentials => LoginError::AuthError,
                AuthError::UnexpectedError => LoginError::UnexpectedError,
            },
    {
        match error {
            AuthError::InvalidCredentials => LoginError::AuthError,
            AuthError::UnexpectedError => LoginError::UnexpectedError,
        }
    }
}

/// The texts of a list of strings.
pub open spec fn texts_of(strings: Seq<String>) -> Seq<Seq<char>> {
    Seq::new(strings.len(), |i: int| strings[i]@)
}

/// An error written out with the chain of its causes: the message and an
/// empty line, then for each cause, outermost first, a line `Caused by:`
/// and the cause on a line of its own behind a tab.
pub open spec fn error_chain_text(message: Seq<char>, causes: Seq<Seq<char>>) -> Seq<char>
    decreases causes.len(),
{
    if causes.len() == 0 {
        message + "\n\n"@
    } else {
        error_chain_text(message, causes.drop_last()) + "Caused by:\n\t"@ + causes.last() + "\n"@
    }
}

/// Writes out an error with the chain of its causes.
pub fn error_chain_fmt(message: &str, causes: &Vec<String>) -> (report: String)
    ensures
        report@ == error_chain_text(message@, texts_of(causes@)),
{
    let mut report = message.to_owned();
    report.append("\n\n");
    let mut i: usize = 0;
    assert(texts_of(causes@).take(0) =~= Seq::<Seq<char>>::empty());
    while i < causes.len()
        invariant
            i <= causes.len(),
            report@ == error_chain_text(message@, texts_of(causes@).take(i as int)),
        decreases causes.len() - i,
    {
        report.append("Caused by:\n\t");
        report.append(causes[i].as_str());
        report.append("\n");
        proof {
            let all = texts_of(causes@);
            let next = all.take(i + 1);
            assert(next.drop_last() =~= all.take(i as int));
            assert(next.last() == causes@[i as int]@);
        }
        i = i + 1;
    }
    assert(texts_of(causes@).take(causes.len() as int) =~= texts_of(causes@));
    report
}

} // verus!
